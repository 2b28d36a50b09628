use contact_api::errors::AppError;
use contact_api::models::{
    CreateAddressRequest, CreateContactRequest, LoginRequest, RegisterRequest, UpdateUserRequest,
    User, UserResponse,
};
use contact_api::validation;

fn register_req(username: &str, password: &str, name: &str) -> RegisterRequest {
    RegisterRequest {
        username: username.to_string(),
        password: password.to_string(),
        name: name.to_string(),
    }
}

fn contact_req(first: &str, last: Option<&str>, email: Option<&str>, phone: Option<&str>)
    -> CreateContactRequest {
    CreateContactRequest {
        first_name: first.to_string(),
        last_name: last.map(|s| s.to_string()),
        email: email.map(|s| s.to_string()),
        phone: phone.map(|s| s.to_string()),
    }
}

fn address_req(street: Option<&str>, country: &str, postal: &str) -> CreateAddressRequest {
    CreateAddressRequest {
        street: street.map(|s| s.to_string()),
        city: None,
        province: None,
        country: country.to_string(),
        postal_code: postal.to_string(),
    }
}

fn assert_validation_err(r: Result<(), AppError>) {
    match r {
        Err(AppError::Validation(m)) => assert!(!m.is_empty()),
        other => panic!("expected Validation, got {:?}", other),
    }
}

#[test]
fn register_length_bounds() {
    let hundred = "x".repeat(100);
    assert!(validation::validate_register(&register_req(&hundred, "pw", "Name")).is_ok());
    let too_long = "x".repeat(101);
    assert_validation_err(validation::validate_register(&register_req(&too_long, "pw", "Name")));
    assert_validation_err(validation::validate_register(&register_req("", "pw", "Name")));
    assert_validation_err(validation::validate_register(&register_req("user", "", "Name")));
    assert_validation_err(validation::validate_register(&register_req("user", "pw", "")));
}

#[test]
fn login_length_bounds() {
    let ok = LoginRequest { username: "user".to_string(), password: "pw".to_string() };
    assert!(validation::validate_login(&ok).is_ok());
    let bad = LoginRequest { username: String::new(), password: "pw".to_string() };
    assert_validation_err(validation::validate_login(&bad));
}

#[test]
fn update_user_optional_bounds() {
    let none = UpdateUserRequest { name: None, password: None };
    assert!(validation::validate_update_user(&none).is_ok());
    let empty_name = UpdateUserRequest { name: Some(String::new()), password: None };
    assert_validation_err(validation::validate_update_user(&empty_name));
    let long_password =
        UpdateUserRequest { name: None, password: Some("x".repeat(101)) };
    assert_validation_err(validation::validate_update_user(&long_password));
}

#[test]
fn contact_field_bounds() {
    assert!(validation::validate_create_contact(&contact_req("Andi", None, None, None)).is_ok());
    assert_validation_err(validation::validate_create_contact(&contact_req("", None, None, None)));
    let long_last = "x".repeat(101);
    assert_validation_err(validation::validate_create_contact(&contact_req(
        "Andi",
        Some(&long_last),
        None,
        None,
    )));
    let long_phone = "1".repeat(21);
    assert_validation_err(validation::validate_create_contact(&contact_req(
        "Andi",
        None,
        None,
        Some(&long_phone),
    )));
    let ok_phone = "1".repeat(20);
    assert!(validation::validate_create_contact(&contact_req("Andi", None, None, Some(&ok_phone)))
        .is_ok());
}

#[test]
fn contact_email_shape() {
    let valid = |e: &str| validation::validate_create_contact(&contact_req(
        "Andi",
        None,
        Some(e),
        None,
    ));
    assert!(valid("a@b").is_ok());
    assert!(valid("andi@example.com").is_ok());
    assert_validation_err(valid("plainaddress"));
    assert_validation_err(valid("a@"));
    assert_validation_err(valid("@b"));
    assert_validation_err(valid("a@@b"));
    assert_validation_err(valid(""));
    // 200 characters is the cap for the whole address.
    let local = "x".repeat(196);
    assert!(valid(&format!("{}@y.z", local)).is_ok());
    let local = "x".repeat(197);
    assert_validation_err(valid(&format!("{}@y.z", local)));
}

#[test]
fn address_field_bounds() {
    assert!(validation::validate_create_address(&address_req(None, "ID", "12345")).is_ok());
    assert_validation_err(validation::validate_create_address(&address_req(None, "", "12345")));
    assert_validation_err(validation::validate_create_address(&address_req(None, "ID", "")));
    let long_postal = "1".repeat(11);
    assert_validation_err(validation::validate_create_address(&address_req(
        None,
        "ID",
        &long_postal,
    )));
    let ok_street = "s".repeat(255);
    assert!(validation::validate_create_address(&address_req(Some(&ok_street), "ID", "1"))
        .is_ok());
    let long_street = "s".repeat(256);
    assert_validation_err(validation::validate_create_address(&address_req(
        Some(&long_street),
        "ID",
        "1",
    )));
}

#[test]
fn user_response_from_user() {
    let u = User {
        username: "alice".to_string(),
        password: "hash".to_string(),
        name: "Alice".to_string(),
        token: None,
    };
    let r = UserResponse::from(u);
    assert_eq!(r.username, "alice");
    assert_eq!(r.name, "Alice");
}
