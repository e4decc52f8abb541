use expenses_backend::models::{CreateExpense, CreateGroup, CreatePayment, CreateUser, Id, LoginRequest};
use expenses_backend::{AppError, ValidationError};

fn required(field: &str) -> AppError {
    AppError::Validation(ValidationError::RequiredField(field.to_string()))
}

fn invalid(format: &str) -> AppError {
    AppError::Validation(ValidationError::InvalidFormat(format.to_string()))
}

fn user(email: &str, username: &str, password: &str) -> CreateUser {
    CreateUser {
        email: email.to_string(),
        username: username.to_string(),
        password: password.to_string(),
    }
}

#[test]
fn create_user_accepts_a_sound_request() {
    assert_eq!(user("a@b.c", "alice", "longenough").validate(), Ok(()));
}

#[test]
fn create_user_requires_every_field() {
    assert_eq!(user("", "alice", "longenough").validate(), Err(required("email")));
    assert_eq!(user("a@b.c", "", "longenough").validate(), Err(required("username")));
    assert_eq!(user("a@b.c", "alice", "").validate(), Err(required("password")));
}

#[test]
fn create_user_rejects_short_password_and_plain_email() {
    assert_eq!(
        user("a@b.c", "alice", "short").validate(),
        Err(invalid("password must be at least 8 characters"))
    );
    assert_eq!(
        user("nodomain", "alice", "longenough").validate(),
        Err(invalid("valid email address"))
    );
}

#[test]
fn login_request_requires_both_fields() {
    let ok = LoginRequest { email: "a@b.c".to_string(), password: "pw".to_string() };
    assert_eq!(ok.validate(), Ok(()));
    let no_email = LoginRequest { email: String::new(), password: "pw".to_string() };
    assert_eq!(no_email.validate(), Err(required("email")));
    let no_password = LoginRequest { email: "a@b.c".to_string(), password: String::new() };
    assert_eq!(no_password.validate(), Err(required("password")));
}

#[test]
fn create_group_rules() {
    let ok = CreateGroup { name: "trip".to_string(), user_ids: vec![Id { value: 1 }] };
    assert_eq!(ok.validate(), Ok(()));
    let unnamed = CreateGroup { name: String::new(), user_ids: vec![Id { value: 1 }] };
    assert_eq!(unnamed.validate(), Err(required("group name")));
    let empty = CreateGroup { name: "trip".to_string(), user_ids: vec![] };
    assert_eq!(empty.validate(), Err(required("at least one user ID")));
    let long_name = CreateGroup { name: "x".repeat(256), user_ids: vec![Id { value: 1 }] };
    assert_eq!(
        long_name.validate(),
        Err(invalid("group name must be less than 255 characters"))
    );
}

#[test]
fn create_expense_rules() {
    let ok = CreateExpense { amount_cents: 1234, description: "dinner".to_string() };
    assert_eq!(ok.validate(), Ok(()));
    let blank = CreateExpense { amount_cents: 1234, description: String::new() };
    assert_eq!(blank.validate(), Err(required("description")));
    let zero = CreateExpense { amount_cents: 0, description: "dinner".to_string() };
    assert_eq!(zero.validate(), Err(invalid("amount must be greater than 0")));
    let negative = CreateExpense { amount_cents: -5, description: "dinner".to_string() };
    assert_eq!(negative.validate(), Err(invalid("amount must be greater than 0")));
    let too_large = CreateExpense { amount_cents: 100_000_000, description: "d".to_string() };
    assert_eq!(too_large.validate(), Err(invalid("amount must be less than 1,000,000")));
    let at_cap = CreateExpense { amount_cents: 99_999_999, description: "d".to_string() };
    assert_eq!(at_cap.validate(), Ok(()));
    let rambling = CreateExpense { amount_cents: 1, description: "x".repeat(501) };
    assert_eq!(
        rambling.validate(),
        Err(invalid("description must be less than 500 characters"))
    );
}

#[test]
fn create_payment_rules() {
    let ok = CreatePayment {
        to_user_id: "67e55044-10b1-426f-9247-bb680e5fe0c8".to_string(),
        amount_cents: 500,
    };
    assert_eq!(ok.validate(), Ok(()));
    let blank = CreatePayment { to_user_id: String::new(), amount_cents: 500 };
    assert_eq!(blank.validate(), Err(required("to_user_id")));
    let zero = CreatePayment { to_user_id: "67e55044-10b1-426f-9247-bb680e5fe0c8".to_string(), amount_cents: 0 };
    assert_eq!(zero.validate(), Err(invalid("payment amount must be greater than 0")));
    let too_large = CreatePayment {
        to_user_id: "67e55044-10b1-426f-9247-bb680e5fe0c8".to_string(),
        amount_cents: 100_000_000,
    };
    assert_eq!(
        too_large.validate(),
        Err(invalid("payment amount must be less than 1,000,000"))
    );
    let garbled = CreatePayment { to_user_id: "not-a-uuid".to_string(), amount_cents: 500 };
    assert_eq!(garbled.validate(), Err(invalid("valid UUID for to_user_id")));
}

#[test]
fn create_payment_accepts_simple_uuid_form() {
    // the parser also admits the un-hyphenated form
    let simple = CreatePayment {
        to_user_id: "67e5504410b1426f9247bb680e5fe0c8".to_string(),
        amount_cents: 500,
    };
    assert_eq!(simple.validate(), Ok(()));
}
