use subscriptions::sandbox::{
    sample_entitlement, sample_history, sample_product, sample_products, sample_purchase,
    sample_purchase_record, sample_restored_record, transaction_id, FIFTEEN_DAYS, THIRTY_DAYS,
};
use subscriptions::{
    get_products, get_subscription_status, init, purchase_product, restore_purchases, Adapter,
    BillingService, EntitlementRecord, NativeLookup, Platform, ProductRecord, ProductType,
    ProductsReply, PurchaseRecord, PurchaseReply, RestoreReply, StatusReply, SubscriptionPeriod,
};

fn serial_of(record: &PurchaseRecord, prefix: &str) -> u64 {
    record
        .transaction_id
        .strip_prefix(prefix)
        .expect("the prefix of the platform")
        .parse()
        .expect("a serial number")
}

const NOW: u64 = 1_750_000_000;

fn expected_product(id: &str) -> ProductRecord {
    ProductRecord {
        id: id.to_string(),
        title: format!("Product {}", id),
        description: "Description".to_string(),
        price: "$9.99".to_string(),
        price_amount_micros: 9_990_000,
        currency_code: "USD".to_string(),
        product_type: "Subscription".to_string(),
        subscription_period: Some("Month".to_string()),
        subscription_period_unit: Some(1),
    }
}

#[test]
fn periods_in_seconds() {
    assert_eq!(THIRTY_DAYS, 30 * 24 * 60 * 60);
    assert_eq!(FIFTEEN_DAYS, 15 * 24 * 60 * 60);
}

#[test]
fn sample_product_is_a_monthly_subscription() {
    assert_eq!(sample_product(&"sub.monthly".to_string()), expected_product("sub.monthly"));
    assert_eq!(sample_product(&String::new()), expected_product(""));
}

#[test]
fn sample_products_lists_every_requested_id() {
    let ids = vec!["b".to_string(), "a".to_string(), "b".to_string()];
    assert_eq!(
        sample_products(&ids),
        ProductsReply::Listed(vec![
            expected_product("b"),
            expected_product("a"),
            expected_product("b")
        ])
    );
    assert_eq!(sample_products(&vec![]), ProductsReply::Listed(vec![]));
}

#[test]
fn transaction_ids() {
    assert_eq!(transaction_id(Adapter::Ios, 0), "ios_transaction_0");
    assert_eq!(transaction_id(Adapter::Ios, 42), "ios_transaction_42");
    assert_eq!(transaction_id(Adapter::Android, 1_000), "android_transaction_1000");
    assert_eq!(
        transaction_id(Adapter::Android, u64::MAX),
        "android_transaction_18446744073709551615"
    );
}

#[test]
fn sample_purchase_record_runs_for_thirty_days() {
    assert_eq!(
        sample_purchase_record(Adapter::Ios, &"sub.monthly".to_string(), 7, NOW),
        PurchaseRecord {
            product_id: "sub.monthly".to_string(),
            transaction_id: "ios_transaction_7".to_string(),
            purchase_time: NOW,
            is_acknowledged: true,
            subscription_expiry_time: Some(NOW + 2_592_000),
            receipt_data: Some("sample_receipt_data".to_string()),
        }
    );
}

#[test]
fn sample_purchase_record_at_the_last_moment_that_fits() {
    let now = u64::MAX - THIRTY_DAYS;
    let record = sample_purchase_record(Adapter::Android, &"p".to_string(), 1, now);
    assert_eq!(record.purchase_time, now);
    assert_eq!(record.subscription_expiry_time, Some(u64::MAX));
}

#[test]
fn sample_purchase_completes_under_a_serial_number() {
    for (adapter, prefix) in
        [(Adapter::Ios, "ios_transaction_"), (Adapter::Android, "android_transaction_")]
    {
        match sample_purchase(adapter, &"sub.monthly".to_string(), NOW) {
            PurchaseReply::Completed(report) => {
                let serial = serial_of(&report.purchase, prefix);
                assert_eq!(report.product_type, ProductType::Subscription);
                assert_eq!(
                    report.purchase,
                    sample_purchase_record(adapter, &"sub.monthly".to_string(), serial, NOW)
                );
            }
            other => panic!("not completed: {:?}", other),
        }
    }
}

#[test]
fn sample_restored_record_was_bought_fifteen_days_ago() {
    assert_eq!(
        sample_restored_record(Adapter::Android, 3, NOW),
        PurchaseRecord {
            product_id: "com.example.subscription.monthly".to_string(),
            transaction_id: "android_transaction_3".to_string(),
            purchase_time: NOW - 1_296_000,
            is_acknowledged: true,
            subscription_expiry_time: Some(NOW + 1_296_000),
            receipt_data: Some("sample_receipt_data".to_string()),
        }
    );
}

#[test]
fn sample_restored_record_at_the_earliest_moment() {
    let record = sample_restored_record(Adapter::Ios, 3, FIFTEEN_DAYS);
    assert_eq!(record.purchase_time, 0);
    assert_eq!(record.subscription_expiry_time, Some(2 * FIFTEEN_DAYS));
}

#[test]
fn sample_history_holds_one_purchase() {
    match sample_history(Adapter::Ios, NOW) {
        RestoreReply::History(reports) => {
            assert_eq!(reports.len(), 1);
            let serial = serial_of(&reports[0].purchase, "ios_transaction_");
            assert_eq!(reports[0].product_type, ProductType::Subscription);
            assert_eq!(reports[0].purchase, sample_restored_record(Adapter::Ios, serial, NOW));
        }
        other => panic!("no history: {:?}", other),
    }
}

#[test]
fn sample_entitlement_has_fifteen_days_to_run() {
    assert_eq!(
        sample_entitlement(NOW),
        StatusReply::Entitled(EntitlementRecord {
            expiry_date: NOW + 1_296_000,
            auto_renew_status: true,
            is_in_trial_period: false,
            is_in_grace_period: false,
        })
    );
}

#[test]
fn the_stand_in_store_answers_every_command() {
    let targets = [(Platform::Ios, Adapter::Ios), (Platform::Android, Adapter::Android)];
    for (platform, adapter) in targets {
        let mut service = BillingService::new();
        init(platform, &mut service, NativeLookup::Located(1)).unwrap();

        let ids = vec!["one".to_string(), "two".to_string()];
        let listing = sample_products(&ids);
        let products = get_products(platform, &service, ids.clone(), listing).unwrap();
        assert_eq!(products.len(), 2);
        assert_eq!(products[0].id(), "one");
        assert_eq!(products[0].title(), "Product one");
        assert_eq!(products[1].id(), "two");
        for product in &products {
            assert_eq!(product.product_type(), ProductType::Subscription);
            assert_eq!(product.subscription_period(), Some(SubscriptionPeriod::Month));
            assert_eq!(product.subscription_period_unit(), Some(1));
            assert_eq!(product.price(), "$9.99");
            assert_eq!(product.price_amount_micros(), 9_990_000);
            assert_eq!(product.currency_code(), "USD");
        }

        let id = "one".to_string();
        let purchase =
            purchase_product(platform, &service, id.clone(), sample_purchase(adapter, &id, NOW))
                .unwrap();
        assert_eq!(purchase.product_id(), "one");
        assert_eq!(purchase.purchase_time(), NOW);
        assert_eq!(purchase.subscription_expiry_time(), Some(NOW + THIRTY_DAYS));
        assert!(purchase.is_consistent_with(products[0].product_type()));

        let history = restore_purchases(platform, &service, sample_history(adapter, NOW)).unwrap();
        assert_eq!(history.len(), 1);
        assert_eq!(history[0].product_id(), "com.example.subscription.monthly");
        assert_eq!(history[0].purchase_time(), NOW - FIFTEEN_DAYS);

        let status =
            get_subscription_status(platform, &service, id, sample_entitlement(NOW), NOW).unwrap();
        assert!(status.is_active());
        assert_eq!(status.expiry_date(), Some(NOW + FIFTEEN_DAYS));
        assert!(status.auto_renew_status());
    }
}

#[test]
fn different_serial_numbers_give_different_transaction_ids() {
    let serials = [0u64, 1, 9, 10, 11, 99, 100, 101, 110, 1_000_000, u64::MAX - 1, u64::MAX];
    for (i, a) in serials.iter().enumerate() {
        for b in &serials[i + 1..] {
            assert_ne!(transaction_id(Adapter::Ios, *a), transaction_id(Adapter::Ios, *b));
            assert_ne!(transaction_id(Adapter::Android, *a), transaction_id(Adapter::Android, *b));
        }
        assert_ne!(transaction_id(Adapter::Ios, *a), transaction_id(Adapter::Android, *a));
    }
}

#[test]
fn the_stand_in_store_answers_a_repeated_id_once() {
    let mut service = BillingService::new();
    init(Platform::Ios, &mut service, NativeLookup::Located(1)).unwrap();
    let ids = vec!["one".to_string(), "two".to_string(), "one".to_string()];
    let listing = sample_products(&ids);
    let products = get_products(Platform::Ios, &service, ids, listing).unwrap();
    assert_eq!(products.len(), 2);
    assert_eq!(products[0].id(), "one");
    assert_eq!(products[1].id(), "two");
}
