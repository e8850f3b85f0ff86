use subscriptions::{EntitlementRecord, Error, StatusRecord, SubscriptionStatus};

fn entitlement(expiry_date: u64, trial: bool, grace: bool) -> EntitlementRecord {
    EntitlementRecord {
        expiry_date,
        auto_renew_status: true,
        is_in_trial_period: trial,
        is_in_grace_period: grace,
    }
}

fn record(
    active: bool,
    expiry: Option<u64>,
    renew: bool,
    trial: bool,
    grace: bool,
) -> StatusRecord {
    StatusRecord {
        product_id: "sub.yearly".to_string(),
        is_active: active,
        expiry_date: expiry,
        auto_renew_status: renew,
        is_in_trial_period: trial,
        is_in_grace_period: grace,
    }
}

#[test]
fn never_purchased_status_is_inactive_without_expiry() {
    let status = SubscriptionStatus::never_purchased("sub.yearly");
    assert_eq!(status.product_id(), "sub.yearly");
    assert!(!status.is_active());
    assert_eq!(status.expiry_date(), None);
    assert!(!status.auto_renew_status());
    assert!(!status.is_in_trial_period());
    assert!(!status.is_in_grace_period());
}

#[test]
fn entitlement_is_active_before_its_expiry_date() {
    let status =
        SubscriptionStatus::from_entitlement("sub.yearly", &entitlement(1_000, true, false), 999)
            .unwrap();
    assert!(status.is_active());
    assert_eq!(status.expiry_date(), Some(1_000));
    assert!(status.auto_renew_status());
    assert!(status.is_in_trial_period());
    assert!(!status.is_in_grace_period());
}

#[test]
fn entitlement_has_lapsed_at_its_expiry_date() {
    let at = SubscriptionStatus::from_entitlement("s", &entitlement(1_000, false, true), 1_000)
        .unwrap();
    assert!(!at.is_active());
    assert_eq!(at.expiry_date(), Some(1_000));
    assert!(at.is_in_grace_period());
    let after = SubscriptionStatus::from_entitlement("s", &entitlement(1_000, false, false), 1_001)
        .unwrap();
    assert!(!after.is_active());
    assert_eq!(after.expiry_date(), Some(1_000));
}

#[test]
fn entitlement_with_trial_and_grace_is_rejected() {
    assert_eq!(
        SubscriptionStatus::from_entitlement("s", &entitlement(1_000, true, true), 1),
        Err(Error::ValidationError("Trial period and grace period at once".to_string()))
    );
}

#[test]
fn status_record_with_trial_and_grace_is_rejected() {
    assert_eq!(
        SubscriptionStatus::from_record(&record(true, Some(5), true, true, true)),
        Err(Error::ValidationError("Trial period and grace period at once".to_string()))
    );
    assert_eq!(
        SubscriptionStatus::from_record(&record(false, None, false, true, true)),
        Err(Error::ValidationError("Trial period and grace period at once".to_string()))
    );
}

#[test]
fn status_record_without_expiry_must_be_blank() {
    let expected =
        Err(Error::ValidationError("Entitlement without an expiry date".to_string()));
    assert_eq!(SubscriptionStatus::from_record(&record(true, None, false, false, false)), expected);
    assert_eq!(SubscriptionStatus::from_record(&record(false, None, true, false, false)), expected);
    assert_eq!(SubscriptionStatus::from_record(&record(false, None, false, true, false)), expected);
    assert_eq!(SubscriptionStatus::from_record(&record(false, None, false, false, true)), expected);
}

#[test]
fn status_record_round_trip() {
    for source in [
        record(false, None, false, false, false),
        record(true, Some(1_800_000_000), true, true, false),
        record(true, Some(1_800_000_000), false, false, true),
        record(false, Some(0), false, false, false),
    ] {
        let status = SubscriptionStatus::from_record(&source).unwrap();
        let flat = status.to_record();
        assert_eq!(flat, source);
        assert_eq!(SubscriptionStatus::from_record(&flat).unwrap(), status);
    }
}

#[test]
fn never_purchased_status_round_trip() {
    let status = SubscriptionStatus::never_purchased("sub.yearly");
    assert_eq!(status.to_record(), record(false, None, false, false, false));
    assert_eq!(SubscriptionStatus::from_record(&status.to_record()).unwrap(), status);
    assert_eq!(status.clone(), status);
}
