use subscriptions::{Error, ProductType, PurchaseRecord, PurchaseResult, StorePurchase};

fn record(expiry: Option<u64>, receipt: Option<&str>) -> PurchaseRecord {
    PurchaseRecord {
        product_id: "sub.monthly".to_string(),
        transaction_id: "GPA.1234-5678".to_string(),
        purchase_time: 1_700_000_000,
        is_acknowledged: false,
        subscription_expiry_time: expiry,
        receipt_data: receipt.map(|text| text.to_string()),
    }
}

#[test]
fn purchase_from_a_record_keeps_every_field() {
    let purchase = PurchaseResult::from_record(&record(Some(1_702_592_000), Some("receipt")));
    assert_eq!(purchase.product_id(), "sub.monthly");
    assert_eq!(purchase.transaction_id(), "GPA.1234-5678");
    assert_eq!(purchase.purchase_time(), 1_700_000_000);
    assert!(!purchase.is_acknowledged());
    assert_eq!(purchase.subscription_expiry_time(), Some(1_702_592_000));
    assert_eq!(purchase.receipt_data(), &Some("receipt".to_string()));
}

#[test]
fn purchase_record_round_trip() {
    for source in [record(Some(5), Some("r")), record(None, None), record(Some(u64::MAX), None)] {
        let purchase = PurchaseResult::from_record(&source);
        let flat = purchase.to_record();
        assert_eq!(flat, source);
        assert_eq!(PurchaseResult::from_record(&flat), purchase);
    }
}

#[test]
fn expiry_time_is_consistent_with_subscriptions_only() {
    let subscription = PurchaseResult::from_record(&record(Some(10), None));
    assert!(subscription.is_consistent_with(ProductType::Subscription));
    assert!(!subscription.is_consistent_with(ProductType::Consumable));
    assert!(!subscription.is_consistent_with(ProductType::NonConsumable));
}

#[test]
fn no_expiry_time_is_consistent_with_every_kind() {
    let purchase = PurchaseResult::from_record(&record(None, None));
    assert!(purchase.is_consistent_with(ProductType::Subscription));
    assert!(purchase.is_consistent_with(ProductType::Consumable));
    assert!(purchase.is_consistent_with(ProductType::NonConsumable));
}

#[test]
fn purchase_clone_is_equal() {
    let purchase = PurchaseResult::from_record(&record(Some(10), Some("r")));
    assert_eq!(purchase.clone(), purchase);
    let source = record(None, Some("r"));
    assert_eq!(source.clone(), source);
}

#[test]
fn purchase_from_the_store_keeps_the_record() {
    for (kind, expiry) in [
        (ProductType::Subscription, Some(10)),
        (ProductType::Subscription, None),
        (ProductType::Consumable, None),
        (ProductType::NonConsumable, None),
    ] {
        let report = StorePurchase { product_type: kind, purchase: record(expiry, Some("r")) };
        let purchase = PurchaseResult::from_store(&report).unwrap();
        assert_eq!(purchase, PurchaseResult::from_record(&report.purchase));
        assert!(purchase.is_consistent_with(kind));
        assert_eq!(report.clone(), report);
    }
}

#[test]
fn purchase_from_the_store_rejects_an_expiry_time_without_a_subscription() {
    for kind in [ProductType::Consumable, ProductType::NonConsumable] {
        let report = StorePurchase { product_type: kind, purchase: record(Some(0), None) };
        assert_eq!(
            PurchaseResult::from_store(&report),
            Err(Error::ValidationError(
                "Expiry time on a purchase that is no subscription".to_string()
            ))
        );
    }
}
