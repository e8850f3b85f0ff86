//! The billing adapter for iOS.

use crate::adapter::{
    consistent_history, history_outcome, none_made_up, product_views, products_outcome,
    result_views, Adapter,
};
use crate::error::{unit_outcome, Error};
use crate::native::{
    text_views, NativeLookup, ProductsReply, PurchaseReply, RestoreReply, StatusReply,
};
use crate::product::Product;
use crate::purchase::{purchase_outcome, PurchaseResult};
use crate::service::BillingService;
use crate::status::{status_outcome, SubscriptionStatus};
use vstd::prelude::*;

verus! {

/// Establishes the handle to the `Subscriptions` class from the outcome of
/// looking it up.
pub fn init_ios(service: &mut BillingService, lookup: NativeLookup) -> (r: Result<(), Error>)
    ensures
        final(service).handle() == Adapter::Ios.spec_initialize(
            old(service).handle(),
            lookup,
        ).0,
        unit_outcome(r) == Adapter::Ios.spec_initialize(old(service).handle(), lookup).1,
{
    Adapter::Ios.initialize(service, lookup)
}

/// Answers a product query from what StoreKit replied.
pub fn get_products_ios(
    service: &BillingService,
    product_ids: Vec<String>,
    reply: ProductsReply,
) -> (r: Result<Vec<Product>, Error>)
    ensures
        products_outcome(r) == Adapter::Ios.spec_list_products(
            service.handle(),
            text_views(product_ids@),
            reply@,
        ),
        r is Ok ==> reply@ is Listed && none_made_up(
            text_views(product_ids@),
            reply@->Listed_0,
            product_views(r->Ok_0@),
        ),
{
    Adapter::Ios.list_products(service, &product_ids, &reply)
}

/// Answers a purchase request from how the StoreKit purchase flow ended.
pub fn purchase_product_ios(
    service: &BillingService,
    product_id: String,
    reply: PurchaseReply,
) -> (r: Result<PurchaseResult, Error>)
    ensures
        purchase_outcome(r) == Adapter::Ios.spec_purchase(
            service.handle(),
            product_id@,
            reply@,
        ),
        r is Ok ==> reply@ is Completed && r->Ok_0@.consistent_with(
            reply@->Completed_0.product_type,
        ),
{
    Adapter::Ios.purchase(service, &product_id, &reply)
}

/// Answers a request for the purchase history from what StoreKit replied.
pub fn restore_purchases_ios(
    service: &BillingService,
    reply: RestoreReply,
) -> (r: Result<Vec<PurchaseResult>, Error>)
    ensures
        history_outcome(r) == Adapter::Ios.spec_restore_purchases(service.handle(), reply@),
        r is Ok ==> reply@ is History && consistent_history(
            reply@->History_0,
            result_views(r->Ok_0@),
        ),
{
    Adapter::Ios.restore_purchases(service, &reply)
}

/// Answers an entitlement query, asked at the time `now`, from what StoreKit
/// replied.
pub fn get_subscription_status_ios(
    service: &BillingService,
    product_id: String,
    reply: StatusReply,
    now: u64,
) -> (r: Result<SubscriptionStatus, Error>)
    ensures
        status_outcome(r) == Adapter::Ios.spec_get_subscription_status(
            service.handle(),
            product_id@,
            reply@,
            now,
        ),
{
    Adapter::Ios.get_subscription_status(service, &product_id, &reply, now)
}

} // verus!
