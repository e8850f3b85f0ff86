//! The command surface: the four operations of the host shell and the setup
//! hook, each forwarded to the adapter of the build target.

use crate::adapter::{
    consistent_history, history_outcome, lemma_resolved_only_listed, lemma_restored,
    none_made_up, once_each, product_views, products_outcome, result_views, Adapter,
};
use crate::android::{
    get_products_android, get_subscription_status_android, init_android,
    purchase_product_android, restore_purchases_android,
};
use crate::error::{failure, unit_outcome, Error, ErrorKind, ErrorView};
use crate::ios::{
    get_products_ios, get_subscription_status_ios, init_ios, purchase_product_ios,
    restore_purchases_ios,
};
use crate::native::{
    text_views, NativeLookup, ProductsReply, ProductsReplyView, PurchaseReply, PurchaseReplyView,
    RestoreReply, RestoreReplyView, StatusReply, StatusReplyView,
};
use crate::product::{Product, ProductView};
use crate::purchase::{purchase_outcome, PurchaseResult, PurchaseView, StorePurchaseView};
use crate::service::BillingService;
use crate::status::{status_outcome, StatusView, SubscriptionStatus};
use vstd::prelude::*;

verus! {

/// The target that the plugin was built for.
#[derive(Debug, Clone, Copy, PartialEq, Eq, Structural)]
pub enum Platform {
    Ios,
    Android,
    /// Any other target: there is no billing adapter for it.
    Unsupported,
}

/// The error of every operation on a target without an adapter.
pub open spec fn unsupported() -> ErrorView {
    failure(ErrorKind::Platform, "unsupported platform"@)
}

fn unsupported_platform() -> (e: Error)
    ensures
        e@ == unsupported(),
{
    Error::new(ErrorKind::Platform, "unsupported platform")
}

impl Platform {
    /// The adapter of this target, if it has one.
    pub open spec fn spec_adapter(self) -> Option<Adapter> {
        match self {
            Platform::Ios => Some(Adapter::Ios),
            Platform::Android => Some(Adapter::Android),
            Platform::Unsupported => None,
        }
    }

    /// The adapter of this target, if it has one.
    pub fn adapter(&self) -> (adapter: Option<Adapter>)
        ensures
            adapter == self.spec_adapter(),
    {
        match self {
            Platform::Ios => Some(Adapter::Ios),
            Platform::Android => Some(Adapter::Android),
            Platform::Unsupported => None,
        }
    }
}

/// The state of the service after the setup hook, and what the hook returns.
pub open spec fn spec_init(
    platform: Platform,
    before: Option<u64>,
    lookup: NativeLookup,
) -> (Option<u64>, Result<(), ErrorView>) {
    match platform.spec_adapter() {
        Some(adapter) => adapter.spec_initialize(before, lookup),
        None => (before, Err(unsupported())),
    }
}

/// What `get_products` returns.
pub open spec fn spec_get_products(
    platform: Platform,
    handle: Option<u64>,
    ids: Seq<Seq<char>>,
    reply: ProductsReplyView,
) -> Result<Seq<ProductView>, ErrorView> {
    match platform.spec_adapter() {
        Some(adapter) => adapter.spec_list_products(handle, ids, reply),
        None => Err(unsupported()),
    }
}

/// What `purchase_product` returns.
pub open spec fn spec_purchase_product(
    platform: Platform,
    handle: Option<u64>,
    product_id: Seq<char>,
    reply: PurchaseReplyView,
) -> Result<PurchaseView, ErrorView> {
    match platform.spec_adapter() {
        Some(adapter) => adapter.spec_purchase(handle, product_id, reply),
        None => Err(unsupported()),
    }
}

/// What `restore_purchases` returns.
pub open spec fn spec_restore_purchases(
    platform: Platform,
    handle: Option<u64>,
    reply: RestoreReplyView,
) -> Result<Seq<PurchaseView>, ErrorView> {
    match platform.spec_adapter() {
        Some(adapter) => adapter.spec_restore_purchases(handle, reply),
        None => Err(unsupported()),
    }
}

/// What `get_subscription_status` returns.
pub open spec fn spec_get_subscription_status(
    platform: Platform,
    handle: Option<u64>,
    product_id: Seq<char>,
    reply: StatusReplyView,
    now: u64,
) -> Result<StatusView, ErrorView> {
    match platform.spec_adapter() {
        Some(adapter) => adapter.spec_get_subscription_status(handle, product_id, reply, now),
        None => Err(unsupported()),
    }
}

/// The setup hook, run once when the host shell starts: initializes the
/// adapter of the target from the outcome of the native lookup. On a target
/// without an adapter it fails, as every operation does there.
pub fn init(
    platform: Platform,
    service: &mut BillingService,
    lookup: NativeLookup,
) -> (r: Result<(), Error>)
    ensures
        final(service).handle() == spec_init(platform, old(service).handle(), lookup).0,
        unit_outcome(r) == spec_init(platform, old(service).handle(), lookup).1,
{
    match platform {
        Platform::Ios => init_ios(service, lookup),
        Platform::Android => init_android(service, lookup),
        Platform::Unsupported => Err(unsupported_platform()),
    }
}

/// Lists the products among `product_ids` that the store resolved. The ids
/// are taken as a set: an id that the request names more than once is
/// answered once.
pub fn get_products(
    platform: Platform,
    service: &BillingService,
    product_ids: Vec<String>,
    reply: ProductsReply,
) -> (r: Result<Vec<Product>, Error>)
    ensures
        products_outcome(r) == spec_get_products(
            platform,
            service.handle(),
            text_views(product_ids@),
            reply@,
        ),
        r is Ok ==> reply@ is Listed && none_made_up(
            text_views(product_ids@),
            reply@->Listed_0,
            product_views(r->Ok_0@),
        ),
{
    match platform {
        Platform::Ios => get_products_ios(service, product_ids, reply),
        Platform::Android => get_products_android(service, product_ids, reply),
        Platform::Unsupported => Err(unsupported_platform()),
    }
}

/// Reports how the purchase of `product_id` ended.
pub fn purchase_product(
    platform: Platform,
    service: &BillingService,
    product_id: String,
    reply: PurchaseReply,
) -> (r: Result<PurchaseResult, Error>)
    ensures
        purchase_outcome(r) == spec_purchase_product(
            platform,
            service.handle(),
            product_id@,
            reply@,
        ),
        r is Ok ==> reply@ is Completed && r->Ok_0@.consistent_with(
            reply@->Completed_0.product_type,
        ),
{
    match platform {
        Platform::Ios => purchase_product_ios(service, product_id, reply),
        Platform::Android => purchase_product_android(service, product_id, reply),
        Platform::Unsupported => Err(unsupported_platform()),
    }
}

/// Lists the purchases of the account.
pub fn restore_purchases(
    platform: Platform,
    service: &BillingService,
    reply: RestoreReply,
) -> (r: Result<Vec<PurchaseResult>, Error>)
    ensures
        history_outcome(r) == spec_restore_purchases(platform, service.handle(), reply@),
        r is Ok ==> reply@ is History && consistent_history(
            reply@->History_0,
            result_views(r->Ok_0@),
        ),
{
    match platform {
        Platform::Ios => restore_purchases_ios(service, reply),
        Platform::Android => restore_purchases_android(service, reply),
        Platform::Unsupported => Err(unsupported_platform()),
    }
}

/// Reports the entitlement to `product_id` at the time `now`.
pub fn get_subscription_status(
    platform: Platform,
    service: &BillingService,
    product_id: String,
    reply: StatusReply,
    now: u64,
) -> (r: Result<SubscriptionStatus, Error>)
    ensures
        status_outcome(r) == spec_get_subscription_status(
            platform,
            service.handle(),
            product_id@,
            reply@,
            now,
        ),
{
    match platform {
        Platform::Ios => get_subscription_status_ios(service, product_id, reply, now),
        Platform::Android => get_subscription_status_android(service, product_id, reply, now),
        Platform::Unsupported => Err(unsupported_platform()),
    }
}

/// On a target without an adapter the setup hook and the four operations
/// fail with the same `PlatformError`, whatever they are given, and the
/// service stays as it was.
pub proof fn lemma_unsupported_platform_fails(
    handle: Option<u64>,
    lookup: NativeLookup,
    ids: Seq<Seq<char>>,
    product_id: Seq<char>,
    products: ProductsReplyView,
    purchase: PurchaseReplyView,
    history: RestoreReplyView,
    status: StatusReplyView,
    now: u64,
)
    ensures
        unsupported().kind == ErrorKind::Platform,
        spec_init(Platform::Unsupported, handle, lookup).0 == handle,
        spec_init(Platform::Unsupported, handle, lookup).1 matches Err(e) && e == unsupported(),
        spec_get_products(Platform::Unsupported, handle, ids, products) matches Err(e) && e
            == unsupported(),
        spec_purchase_product(Platform::Unsupported, handle, product_id, purchase) matches Err(e)
            && e == unsupported(),
        spec_restore_purchases(Platform::Unsupported, handle, history) matches Err(e) && e
            == unsupported(),
        spec_get_subscription_status(
            Platform::Unsupported,
            handle,
            product_id,
            status,
            now,
        ) matches Err(e) && e == unsupported(),
{
}

/// `get_products` takes the requested ids as a set: it answers each id
/// once, however often the request names it, so no two of the products it
/// returns have the same id and there are no more of them than the request
/// names different ids.
pub proof fn lemma_get_products_once_each(
    platform: Platform,
    handle: Option<u64>,
    ids: Seq<Seq<char>>,
    reply: ProductsReplyView,
)
    ensures
        spec_get_products(platform, handle, ids, reply) matches Ok(products) ==> once_each(products)
            && products.len() <= ids.to_set().len() && products.len() <= ids.len(),
{
    if let ProductsReplyView::Listed(records) = reply {
        lemma_resolved_only_listed(ids, records);
        ids.lemma_cardinality_of_set();
    }
}

/// `get_products` makes up no product. Each product that it returns has an
/// id that was requested and that the store listed, and is what the store's
/// record of that id describes; no id is answered twice. An id that the
/// store did not list is therefore never answered.
pub proof fn lemma_get_products_only_resolved(
    platform: Platform,
    handle: Option<u64>,
    ids: Seq<Seq<char>>,
    reply: ProductsReplyView,
)
    ensures
        spec_get_products(platform, handle, ids, reply) matches Ok(products) ==> reply is Listed
            && none_made_up(ids, reply->Listed_0, products),
{
    if let ProductsReplyView::Listed(records) = reply {
        lemma_resolved_only_listed(ids, records);
    }
}

/// `get_products` fails with a `PlatformError` or a `ProductRetrievalError`,
/// and with no other.
pub proof fn lemma_get_products_failures(
    platform: Platform,
    handle: Option<u64>,
    ids: Seq<Seq<char>>,
    reply: ProductsReplyView,
)
    ensures
        spec_get_products(platform, handle, ids, reply) matches Err(e) ==> {
            if platform.spec_adapter() is Some && handle is Some {
                e.kind == ErrorKind::ProductRetrieval
            } else {
                e.kind == ErrorKind::Platform
            }
        },
{
    if let ProductsReplyView::Listed(records) = reply {
        lemma_resolved_only_listed(ids, records);
    }
}

/// On an initialized service of a supported platform, `restore_purchases`
/// answers the empty history of a fresh account with the empty list, and
/// with no error.
pub proof fn lemma_fresh_account_restores_nothing(platform: Platform, handle: Option<u64>)
    requires
        platform.spec_adapter() is Some,
        handle is Some,
    ensures
        spec_restore_purchases(platform, handle, RestoreReplyView::History(Seq::empty())) is Ok,
        spec_restore_purchases(
            platform,
            handle,
            RestoreReplyView::History(Seq::empty()),
        )->Ok_0 == Seq::<PurchaseView>::empty(),
{
}

/// Whatever `restore_purchases` returns is the history that the store
/// reported: one purchase for each report, in the order of the reports, and
/// each with an expiry time only if its product is a subscription.
pub proof fn lemma_restore_purchases_keeps_history(
    platform: Platform,
    handle: Option<u64>,
    reply: RestoreReplyView,
)
    ensures
        spec_restore_purchases(platform, handle, reply) matches Ok(purchases) ==> reply is History
            && consistent_history(reply->History_0, purchases),
{
    if let RestoreReplyView::History(reports) = reply {
        lemma_restored(reports);
    }
}

/// Whether some report of a history describes no purchase.
pub open spec fn some_inconsistent(reports: Seq<StorePurchaseView>) -> bool {
    exists|k: int| 0 <= k < reports.len() && (#[trigger] reports[k]).to_purchase() is Err
}

/// `restore_purchases` fails with a `PurchaseError` only where the native
/// call failed or never answered, or where a report of the history gives an
/// expiry time to the purchase of a product that is no subscription; and
/// with a `PlatformError` only where the platform has no adapter or the
/// service no handle.
pub proof fn lemma_restore_failures(
    platform: Platform,
    handle: Option<u64>,
    reply: RestoreReplyView,
)
    ensures
        spec_restore_purchases(platform, handle, reply) matches Err(e) ==> {
            if platform.spec_adapter() is Some && handle is Some {
                &&& e.kind == ErrorKind::Purchase
                &&& reply is Failed || reply is Unanswered || (reply is History
                    && some_inconsistent(reply->History_0))
            } else {
                e.kind == ErrorKind::Platform
            }
        },
{
    if let RestoreReplyView::History(reports) = reply {
        lemma_restored(reports);
    }
}

/// On an initialized service of a supported platform, the status of a
/// product that was never purchased is inactive and has no expiry date, and
/// asking for it is no error.
pub proof fn lemma_never_purchased_is_inactive(
    platform: Platform,
    handle: Option<u64>,
    product_id: Seq<char>,
    now: u64,
)
    requires
        platform.spec_adapter() is Some,
        handle is Some,
    ensures
        spec_get_subscription_status(
            platform,
            handle,
            product_id,
            StatusReplyView::NeverPurchased,
            now,
        ) matches Ok(status) && status.product_id == product_id && !status.is_active
            && status.expiry_date is None,
{
}

/// Every status that `get_subscription_status` returns is well formed, and
/// a subscription whose expiry date has passed is reported as inactive.
pub proof fn lemma_status_is_well_formed(
    platform: Platform,
    handle: Option<u64>,
    product_id: Seq<char>,
    reply: StatusReplyView,
    now: u64,
)
    ensures
        spec_get_subscription_status(platform, handle, product_id, reply, now) matches Ok(status)
            ==> {
            &&& status.well_formed()
            &&& status.product_id == product_id
            &&& status.expiry_date is None <==> reply is NeverPurchased
            &&& status.expiry_date matches Some(expiry) ==> (status.is_active <==> now < expiry)
        },
{
}

/// `get_subscription_status` fails with a `SubscriptionError` only where the
/// native query failed, never answered, or claims a trial period and a grace
/// period at once, and with a `PlatformError` only where the platform has no
/// adapter or the service no handle.
pub proof fn lemma_status_failures(
    platform: Platform,
    handle: Option<u64>,
    product_id: Seq<char>,
    reply: StatusReplyView,
    now: u64,
)
    ensures
        spec_get_subscription_status(platform, handle, product_id, reply, now) matches Err(e) ==> {
            if platform.spec_adapter() is Some && handle is Some {
                &&& e.kind == ErrorKind::Subscription
                &&& reply is Failed || reply is Unanswered || (reply is Entitled
                    && reply->Entitled_0.is_in_trial_period
                    && reply->Entitled_0.is_in_grace_period)
            } else {
                e.kind == ErrorKind::Platform
            }
        },
{
}

/// A purchase that the user cancelled is never answered with a purchase:
/// the answer is an error, and on an initialized service of a supported
/// platform it is a `PurchaseError`.
pub proof fn lemma_cancelled_purchase_fails(
    platform: Platform,
    handle: Option<u64>,
    product_id: Seq<char>,
)
    ensures
        spec_purchase_product(platform, handle, product_id, PurchaseReplyView::Cancelled) is Err,
        platform.spec_adapter() is Some && handle is Some ==> spec_purchase_product(
            platform,
            handle,
            product_id,
            PurchaseReplyView::Cancelled,
        )->Err_0.kind == ErrorKind::Purchase,
{
}

/// `purchase_product` fails with a `PurchaseError` on an initialized service
/// of a supported platform, and with a `PlatformError` everywhere else.
pub proof fn lemma_purchase_failures(
    platform: Platform,
    handle: Option<u64>,
    product_id: Seq<char>,
    reply: PurchaseReplyView,
)
    ensures
        spec_purchase_product(platform, handle, product_id, reply) matches Err(e) ==> {
            if platform.spec_adapter() is Some && handle is Some {
                e.kind == ErrorKind::Purchase
            } else {
                e.kind == ErrorKind::Platform
            }
        },
{
}

/// `purchase_product` returns a purchase only for a completed flow. The
/// purchase is then the one that the store reported, it is of the product
/// that was asked for, and it has an expiry time only if that product is a
/// subscription.
pub proof fn lemma_purchase_only_when_completed(
    platform: Platform,
    handle: Option<u64>,
    product_id: Seq<char>,
    reply: PurchaseReplyView,
)
    ensures
        spec_purchase_product(platform, handle, product_id, reply) matches Ok(purchase) ==> {
            &&& reply matches PurchaseReplyView::Completed(report)
            &&& purchase == report.purchase.to_purchase()
            &&& purchase.product_id == product_id
            &&& purchase.consistent_with(report.product_type)
        },
{
}

/// Initialization is guarded against a second run. A service that holds a
/// handle keeps it whatever the hook is given, and the hook then fails with
/// a `PlatformError`; a hook that fails leaves the service as it was. So of
/// two runs in a row the second cannot succeed after the first did, and it
/// leaves the handle of the first in place.
pub proof fn lemma_init_twice(
    platform: Platform,
    before: Option<u64>,
    first: NativeLookup,
    second: NativeLookup,
)
    ensures
        ({
            let (once, first_result) = spec_init(platform, before, first);
            let (twice, second_result) = spec_init(platform, once, second);
            &&& before is Some ==> once == before && first_result is Err
            &&& first_result is Err ==> once == before
            &&& first_result is Ok ==> first == NativeLookup::Located(once->Some_0)
            &&& once is Some ==> twice == once && second_result is Err
                && second_result->Err_0.kind == ErrorKind::Platform
        }),
{
}

} // verus!
