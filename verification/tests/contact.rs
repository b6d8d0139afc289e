use voidreg_api::api::v1::contact::{is_valid_email, validate_contact};
use voidreg_api::api::v1::newsletter::{accept_subscription_email, subscription_email};
use voidreg_api::domain::{ContactRequest, ContactResponse, NewsletterRequest, NewsletterResponse};
use voidreg_api::error::AppError;

fn request(name: &str, email: &str, message: &str) -> ContactRequest {
    ContactRequest { name: name.to_owned(), email: email.to_owned(), message: message.to_owned() }
}

fn unprocessable(r: Result<voidreg_api::api::v1::contact::ContactSubmission, AppError>) -> String {
    match r {
        Err(AppError::Unprocessable(m)) => m,
        other => panic!("expected a refusal, got {:?}", other),
    }
}

#[test]
fn email_validity() {
    assert!(is_valid_email("ada@example.com"));
    assert!(is_valid_email("a@b.c"));
    assert!(is_valid_email("a@b@c.com"));
    assert!(!is_valid_email("bad"));
    assert!(!is_valid_email("not-an-email"));
    assert!(!is_valid_email("@example.com"));
    assert!(!is_valid_email("ada@"));
    assert!(!is_valid_email("ada@com"));
    assert!(!is_valid_email("ada@.com"));
    assert!(!is_valid_email("ada@com."));
    assert!(!is_valid_email("ada lovelace@example.com"));
    assert!(!is_valid_email("ada@exa\u{a0}mple.com"));
    assert!(!is_valid_email(""));
}

#[test]
fn contact_refuses_empty_form_with_name_message() {
    let m = unprocessable(validate_contact(&request("", "bad", "")));
    assert_eq!(m, "name must be between 1 and 120 characters");
}

#[test]
fn contact_refusals_in_order() {
    assert_eq!(
        unprocessable(validate_contact(&request("Ada", "bad", ""))),
        "enter a valid email address"
    );
    assert_eq!(
        unprocessable(validate_contact(&request("Ada", "ada@example.com", "   "))),
        "message must be between 1 and 8000 characters"
    );
    let long = "x".repeat(8001);
    assert_eq!(
        unprocessable(validate_contact(&request("Ada", "ada@example.com", &long))),
        "message must be between 1 and 8000 characters"
    );
    let ok = "x".repeat(8000);
    assert!(validate_contact(&request("Ada", "ada@example.com", &ok)).is_ok());
}

#[test]
fn contact_name_length_counts_bytes() {
    let name = "é".repeat(60);
    assert!(validate_contact(&request(&name, "ada@example.com", "hi")).is_ok());
    let name = "é".repeat(61);
    assert_eq!(
        unprocessable(validate_contact(&request(&name, "ada@example.com", "hi"))),
        "name must be between 1 and 120 characters"
    );
    let name = "a".repeat(121);
    assert!(validate_contact(&request(&name, "ada@example.com", "hi")).is_err());
}

#[test]
fn contact_accepts_and_trims() {
    let s = validate_contact(&request(
        "  Ada ",
        " ada@example.com\n",
        "Hello from the scaffold tests.  ",
    ))
    .unwrap();
    assert_eq!(s.name, "Ada");
    assert_eq!(s.email, "ada@example.com");
    assert_eq!(s.message, "Hello from the scaffold tests.");
    assert_eq!(ContactResponse::received().status, "received");
}

#[test]
fn newsletter_lowercases_and_trims() {
    let r = subscription_email(&NewsletterRequest { email: "  Reader@Example.COM ".to_owned() });
    assert_eq!(r.unwrap(), "reader@example.com");
    let r = subscription_email(&NewsletterRequest { email: "not-an-email".to_owned() });
    match r {
        Err(AppError::Unprocessable(m)) => assert_eq!(m, "enter a valid email address"),
        other => panic!("unexpected {:?}", other),
    }
    let resp = NewsletterResponse::subscribed("reader@example.com".to_owned());
    assert_eq!(resp.status, "subscribed");
    assert_eq!(resp.email, "reader@example.com");
}

#[test]
fn accept_subscription_email_checks_only() {
    assert_eq!(accept_subscription_email("Reader@Example.com".to_owned()).unwrap(), "Reader@Example.com");
    assert!(accept_subscription_email("reader@example".to_owned()).is_err());
}

#[test]
fn error_status_codes() {
    assert_eq!(AppError::NotFound("x".to_owned()).status_code(), 404);
    assert_eq!(AppError::Unprocessable("x".to_owned()).status_code(), 422);
    assert_eq!(AppError::Internal("boom".to_owned()).status_code(), 500);
    assert_eq!(AppError::Internal("boom".to_owned()).message(), "boom");
}

#[test]
fn accepted_contact_checks_again_unchanged() {
    let first = validate_contact(&request("  Ada ", " ada@example.com ", " Hi ")).unwrap();
    let again = validate_contact(&request(&first.name, &first.email, &first.message)).unwrap();
    assert_eq!(again.name, first.name);
    assert_eq!(again.email, first.email);
    assert_eq!(again.message, first.message);
}

#[test]
fn recorded_address_resubscribes_unchanged() {
    let first = subscription_email(&NewsletterRequest { email: " Reader@Example.com ".to_owned() }).unwrap();
    let again = subscription_email(&NewsletterRequest { email: first.clone() }).unwrap();
    assert_eq!(again, first);
    assert_eq!(again, "reader@example.com");
}
