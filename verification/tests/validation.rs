use lodestone::dto::auth::{RegisterRequest, TokenResponse};
use lodestone::dto::organizations::CreateOrgRequest;
use lodestone::error::AppError;

fn reg(email: &str, password: &str) -> RegisterRequest {
    RegisterRequest { email: email.to_string(), password: password.to_string() }
}

#[test]
fn register_request_rules() {
    assert!(reg("alice@example.com", "motdepasse").validate().is_ok());
    assert!(reg("alice@example.com", "éééééééé").validate().is_ok());
    let e = reg("alice@example.com", "court").validate().err().unwrap();
    assert_eq!(e.to_message(), "password: mot de passe : 8 caractères minimum");
    let e = reg("pas-un-email", "motdepasse").validate().err().unwrap();
    assert_eq!(e.to_message(), "email: email invalide");
    let e = reg("", "x").validate().err().unwrap();
    assert_eq!(e.violations.len(), 2);
    assert_eq!(e.to_message(), "email: email invalide\npassword: mot de passe : 8 caractères minimum");
    match e.into_app_error() {
        AppError::InvalidInput(m) => assert!(m.starts_with("email: ")),
        _ => panic!("expected invalid input"),
    }
}

#[test]
fn org_name_rules() {
    assert!(CreateOrgRequest { name: "Acme".to_string() }.validate().is_ok());
    assert!(CreateOrgRequest { name: "é".repeat(100) }.validate().is_ok());
    let e = CreateOrgRequest { name: "a".repeat(101) }.validate().err().unwrap();
    assert_eq!(e.to_message(), "name: nom : 1 à 100 caractères");
    assert!(CreateOrgRequest { name: String::new() }.validate().is_err());
}

#[test]
fn bearer_token_response() {
    let t = TokenResponse::bearer("a".to_string(), "r".to_string());
    assert_eq!(t.token_type, "Bearer");
    assert_eq!(t.access_token, "a");
    assert_eq!(t.refresh_token, "r");
}
