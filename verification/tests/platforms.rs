use subscriptions::android::{
    get_products_android, get_subscription_status_android, init_android,
    purchase_product_android, restore_purchases_android,
};
use subscriptions::ios::{
    get_products_ios, get_subscription_status_ios, init_ios, purchase_product_ios,
    restore_purchases_ios,
};
use subscriptions::{
    BillingService, EntitlementRecord, Error, NativeLookup, ProductRecord, ProductsReply,
    ProductType, PurchaseRecord, PurchaseReply, RestoreReply, StatusReply, StorePurchase,
};

fn lifetime_unlock() -> ProductRecord {
    ProductRecord {
        id: "unlock".to_string(),
        title: "Unlock".to_string(),
        description: "Everything, forever".to_string(),
        price: "$19.99".to_string(),
        price_amount_micros: 19_990_000,
        currency_code: "USD".to_string(),
        product_type: "NonConsumable".to_string(),
        subscription_period: None,
        subscription_period_unit: None,
    }
}

fn unlock_purchase() -> StorePurchase {
    StorePurchase {
        product_type: ProductType::NonConsumable,
        purchase: PurchaseRecord {
            product_id: "unlock".to_string(),
            transaction_id: "1000000123456789".to_string(),
            purchase_time: 1_650_000_000,
            is_acknowledged: true,
            subscription_expiry_time: None,
            receipt_data: None,
        },
    }
}

#[test]
fn init_ios_then_every_operation_answers() {
    let mut service = BillingService::new();
    assert_eq!(init_ios(&mut service, NativeLookup::Located(0xABCD)), Ok(()));
    assert_eq!(service.get(), Some(0xABCD));

    let products = get_products_ios(
        &service,
        vec!["unlock".to_string()],
        ProductsReply::Listed(vec![lifetime_unlock()]),
    )
    .unwrap();
    assert_eq!(products.len(), 1);
    assert_eq!(products[0].to_record(), lifetime_unlock());

    let purchase = purchase_product_ios(
        &service,
        "unlock".to_string(),
        PurchaseReply::Completed(unlock_purchase()),
    )
    .unwrap();
    assert_eq!(purchase.to_record(), unlock_purchase().purchase);

    let history =
        restore_purchases_ios(&service, RestoreReply::History(vec![unlock_purchase()])).unwrap();
    assert_eq!(history.len(), 1);
    assert_eq!(history[0], purchase);

    let status = get_subscription_status_ios(
        &service,
        "sub".to_string(),
        StatusReply::Entitled(EntitlementRecord {
            expiry_date: 10,
            auto_renew_status: true,
            is_in_trial_period: false,
            is_in_grace_period: true,
        }),
        9,
    )
    .unwrap();
    assert!(status.is_active());
    assert!(status.is_in_grace_period());
}

#[test]
fn init_android_then_every_operation_answers() {
    let mut service = BillingService::new();
    assert_eq!(init_android(&mut service, NativeLookup::Located(17)), Ok(()));
    assert_eq!(service.get(), Some(17));

    let products = get_products_android(
        &service,
        vec!["unlock".to_string(), "missing".to_string()],
        ProductsReply::Listed(vec![lifetime_unlock()]),
    )
    .unwrap();
    assert_eq!(products.len(), 1);
    assert_eq!(products[0].id(), "unlock");

    let purchase = purchase_product_android(
        &service,
        "unlock".to_string(),
        PurchaseReply::Completed(unlock_purchase()),
    )
    .unwrap();
    assert_eq!(purchase.transaction_id(), "1000000123456789");

    assert_eq!(restore_purchases_android(&service, RestoreReply::History(vec![])), Ok(vec![]));

    let status = get_subscription_status_android(
        &service,
        "sub".to_string(),
        StatusReply::NeverPurchased,
        9,
    )
    .unwrap();
    assert!(!status.is_active());
    assert_eq!(status.expiry_date(), None);
}

#[test]
fn ios_operations_fail_before_init() {
    let service = BillingService::new();
    let not_found = Error::PlatformError("Subscriptions class not found".to_string());
    assert_eq!(
        get_products_ios(&service, vec!["a".to_string()], ProductsReply::Unanswered),
        Err(not_found.clone())
    );
    assert_eq!(
        purchase_product_ios(&service, "a".to_string(), PurchaseReply::Cancelled),
        Err(not_found.clone())
    );
    assert_eq!(
        restore_purchases_ios(&service, RestoreReply::History(vec![])),
        Err(not_found.clone())
    );
    assert_eq!(
        get_subscription_status_ios(&service, "a".to_string(), StatusReply::NeverPurchased, 0),
        Err(not_found)
    );
}

#[test]
fn android_operations_fail_before_init() {
    let service = BillingService::new();
    let not_initialized = Error::PlatformError("Subscriptions not initialized".to_string());
    assert_eq!(
        get_products_android(&service, vec!["a".to_string()], ProductsReply::Unanswered),
        Err(not_initialized.clone())
    );
    assert_eq!(
        purchase_product_android(&service, "a".to_string(), PurchaseReply::Cancelled),
        Err(not_initialized.clone())
    );
    assert_eq!(
        restore_purchases_android(&service, RestoreReply::History(vec![])),
        Err(not_initialized.clone())
    );
    assert_eq!(
        get_subscription_status_android(&service, "a".to_string(), StatusReply::NeverPurchased, 0),
        Err(not_initialized)
    );
}

#[test]
fn init_ios_fails_when_the_class_is_missing() {
    let mut service = BillingService::new();
    assert_eq!(
        init_ios(&mut service, NativeLookup::ServiceNotFound),
        Err(Error::PlatformError("Subscriptions class not found".to_string()))
    );
    assert!(!service.is_ready());
}

#[test]
fn init_android_fails_without_activity() {
    let mut service = BillingService::new();
    assert_eq!(
        init_android(&mut service, NativeLookup::ContextUnavailable),
        Err(Error::PlatformError("Host context unavailable".to_string()))
    );
    assert!(!service.is_ready());
}

#[test]
fn init_android_twice_fails_and_keeps_the_instance() {
    let mut service = BillingService::new();
    init_android(&mut service, NativeLookup::Located(1)).unwrap();
    assert_eq!(
        init_android(&mut service, NativeLookup::Located(2)),
        Err(Error::PlatformError("Failed to initialize Subscriptions".to_string()))
    );
    assert_eq!(service.get(), Some(1));
}

#[test]
fn init_ios_twice_fails_and_keeps_the_class() {
    let mut service = BillingService::new();
    init_ios(&mut service, NativeLookup::Located(1)).unwrap();
    assert_eq!(
        init_ios(&mut service, NativeLookup::Located(1)),
        Err(Error::PlatformError("Failed to initialize Subscriptions".to_string()))
    );
    assert_eq!(service.get(), Some(1));
}
