use invoicenow::profile::create_profile;
use invoicenow::{InvoiceError, PartyId, UserProfile};

#[test]
fn profile_defaults_business_name() {
    let owner = PartyId { w0: 1, w1: 2, w2: 3, w3: 4 };
    let p = create_profile(owner, "Ada".to_string(), "ada@example.com".to_string(), None).unwrap();
    assert_eq!(p.wallet, owner);
    assert_eq!(p.name, "Ada");
    assert_eq!(p.business_name, "");
    assert_eq!(p.total_invoices, 0);
    let p = create_profile(owner, "Ada".to_string(), "e".to_string(), Some("Acme".to_string())).unwrap();
    assert_eq!(p.business_name, "Acme");
    assert_eq!(UserProfile::SPACE, 389);
}

#[test]
fn profile_length_limits() {
    let owner = PartyId::unset();
    let r = create_profile(owner, "n".repeat(65), String::new(), None);
    assert_eq!(r.unwrap_err(), InvoiceError::NameTooLong);
    let r = create_profile(owner, "n".repeat(64), "e".repeat(129), None);
    assert_eq!(r.unwrap_err(), InvoiceError::EmailTooLong);
    assert!(create_profile(owner, "n".repeat(64), "e".repeat(128), None).is_ok());
}

#[test]
fn error_messages() {
    assert_eq!(InvoiceError::PoolPaused.message(), "Lottery pool is paused");
    assert_eq!(InvoiceError::Unauthorized.message(), "Unauthorized");
}
