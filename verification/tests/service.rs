use subscriptions::{BillingService, Error};

#[test]
fn new_service_has_no_handle() {
    let service = BillingService::new();
    assert_eq!(service.get(), None);
    assert!(!service.is_ready());
}

#[test]
fn initialize_stores_the_handle() {
    let mut service = BillingService::new();
    assert_eq!(service.initialize(0x7f00_1234), Ok(()));
    assert_eq!(service.get(), Some(0x7f00_1234));
    assert!(service.is_ready());
}

#[test]
fn second_initialize_fails_and_keeps_the_first_handle() {
    let mut service = BillingService::new();
    service.initialize(1).unwrap();
    assert_eq!(
        service.initialize(2),
        Err(Error::PlatformError("Failed to initialize Subscriptions".to_string()))
    );
    assert_eq!(service.get(), Some(1));
    assert_eq!(
        service.initialize(1),
        Err(Error::PlatformError("Failed to initialize Subscriptions".to_string()))
    );
    assert_eq!(service.get(), Some(1));
}

#[test]
fn handle_zero_counts_as_a_handle() {
    let mut service = BillingService::new();
    service.initialize(0).unwrap();
    assert_eq!(service.get(), Some(0));
    assert!(service.is_ready());
    assert!(service.initialize(0).is_err());
}
