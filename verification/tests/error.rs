use subscriptions::{Error, ErrorKind};

#[test]
fn message_of_each_kind_starts_with_its_prefix() {
    let detail = "boom".to_string();
    assert_eq!(
        Error::ProductRetrievalError(detail.clone()).message(),
        "Failed to retrieve products: boom"
    );
    assert_eq!(Error::PurchaseError(detail.clone()).message(), "Purchase failed: boom");
    assert_eq!(
        Error::SubscriptionError(detail.clone()).message(),
        "Subscription management error: boom"
    );
    assert_eq!(Error::ValidationError(detail.clone()).message(), "Validation error: boom");
    assert_eq!(Error::PlatformError(detail).message(), "Platform-specific error: boom");
}

#[test]
fn message_of_an_empty_detail_is_the_prefix() {
    assert_eq!(Error::PurchaseError(String::new()).message(), "Purchase failed: ");
}

#[test]
fn kind_and_detail_of_each_variant() {
    let cases = vec![
        (Error::ProductRetrievalError("a".to_string()), ErrorKind::ProductRetrieval, "a"),
        (Error::PurchaseError("b".to_string()), ErrorKind::Purchase, "b"),
        (Error::SubscriptionError("c".to_string()), ErrorKind::Subscription, "c"),
        (Error::ValidationError("d".to_string()), ErrorKind::Validation, "d"),
        (Error::PlatformError("e".to_string()), ErrorKind::Platform, "e"),
    ];
    for (error, kind, detail) in cases {
        assert_eq!(error.kind(), kind);
        assert_eq!(error.detail(), detail);
    }
}

#[test]
fn new_builds_the_variant_of_the_kind() {
    assert_eq!(
        Error::new(ErrorKind::ProductRetrieval, "x"),
        Error::ProductRetrievalError("x".to_string())
    );
    assert_eq!(Error::new(ErrorKind::Purchase, "x"), Error::PurchaseError("x".to_string()));
    assert_eq!(Error::new(ErrorKind::Subscription, "x"), Error::SubscriptionError("x".to_string()));
    assert_eq!(Error::new(ErrorKind::Validation, "x"), Error::ValidationError("x".to_string()));
    assert_eq!(Error::new(ErrorKind::Platform, "x"), Error::PlatformError("x".to_string()));
}

#[test]
fn clone_of_an_error_is_equal_to_it() {
    let error = Error::PlatformError("unsupported platform".to_string());
    assert_eq!(error.clone(), error);
}
