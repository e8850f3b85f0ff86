//! A stand-in for the native store, for development and for builds whose
//! native bridge cannot decode the store's answers yet. It knows every
//! product id as a monthly subscription and issues its own transaction ids.
//! What it answers is handed to the adapter like the answer of a real store.

use crate::adapter::{
    catalogue, distinct, first_match, lemma_distinct, lemma_first_match, resolved, selected,
    Adapter,
};
use crate::model::{ProductType, SubscriptionPeriod};
use crate::native::{
    purchase_views, record_views, text_views, ProductsReply, ProductsReplyView, PurchaseReply,
    PurchaseReplyView, RestoreReply, RestoreReplyView, StatusReply, StatusReplyView,
};
use crate::product::{ProductRecord, ProductRecordView, ProductView};
use crate::purchase::{PurchaseRecord, PurchaseRecordView, StorePurchase, StorePurchaseView};
use crate::status::EntitlementRecord;
use crate::text::{decimal, decimal_text, lemma_decimal_text_injective};
use vstd::prelude::*;

verus! {

/// Thirty days, in seconds: the length of the subscriptions sold here.
pub const THIRTY_DAYS: u64 = 2_592_000;

/// Fifteen days, in seconds.
pub const FIFTEEN_DAYS: u64 = 1_296_000;

/// `rand::random::<u64>()`: a number drawn from the thread's generator.
/// Nothing is promised of it, not even that two calls differ. The call
/// panics only where the operating system fails the generator: when it has
/// no entropy to seed it at a thread's first use or to reseed it later, or
/// when the handler that reseeds it after a fork cannot be registered.
#[verifier::external_body]
fn random_serial() -> (serial: u64) {
    rand::random::<u64>()
}

/// The record under which the stand-in store lists the product `id`.
pub open spec fn sample_product_view(id: Seq<char>) -> ProductRecordView {
    ProductRecordView {
        id,
        title: "Product "@ + id,
        description: "Description"@,
        price: "$9.99"@,
        price_amount_micros: 9_990_000,
        currency_code: "USD"@,
        product_type: "Subscription"@,
        subscription_period: Some("Month"@),
        subscription_period_unit: Some(1u32),
    }
}

/// The listing of the stand-in store for a request: one record for each
/// requested id, in the order of the request.
pub open spec fn sample_listing(ids: Seq<Seq<char>>) -> Seq<ProductRecordView> {
    ids.map_values(|id: Seq<char>| sample_product_view(id))
}

/// The product that the stand-in store sells under `id`: a subscription by
/// the month.
pub open spec fn sample_product_of(id: Seq<char>) -> ProductView {
    ProductView {
        id,
        title: "Product "@ + id,
        description: "Description"@,
        price: "$9.99"@,
        price_amount_micros: 9_990_000,
        currency_code: "USD"@,
        product_type: ProductType::Subscription,
        subscription_period: Some(SubscriptionPeriod::Month),
        subscription_period_unit: Some(1u32),
    }
}

/// The id of the transaction with the given serial number.
pub open spec fn transaction_text(adapter: Adapter, serial: u64) -> Seq<char> {
    match adapter {
        Adapter::Ios => "ios_transaction_"@ + decimal_text(serial as nat),
        Adapter::Android => "android_transaction_"@ + decimal_text(serial as nat),
    }
}

/// The purchase of `product_id` at the time `now`, under the given serial
/// number: acknowledged, with a receipt, and running for thirty days.
pub open spec fn sample_purchase_view(
    adapter: Adapter,
    product_id: Seq<char>,
    serial: u64,
    now: u64,
) -> PurchaseRecordView {
    PurchaseRecordView {
        product_id,
        transaction_id: transaction_text(adapter, serial),
        purchase_time: now,
        is_acknowledged: true,
        subscription_expiry_time: Some((now + THIRTY_DAYS) as u64),
        receipt_data: Some("sample_receipt_data"@),
    }
}

/// The one purchase in the history of the stand-in store: a monthly
/// subscription bought fifteen days before `now`, with fifteen days to run.
pub open spec fn sample_restored_view(
    adapter: Adapter,
    serial: u64,
    now: u64,
) -> PurchaseRecordView {
    PurchaseRecordView {
        product_id: "com.example.subscription.monthly"@,
        transaction_id: transaction_text(adapter, serial),
        purchase_time: (now - FIFTEEN_DAYS) as u64,
        is_acknowledged: true,
        subscription_expiry_time: Some((now + FIFTEEN_DAYS) as u64),
        receipt_data: Some("sample_receipt_data"@),
    }
}

/// A purchase as the stand-in store reports it: everything it sells is a
/// subscription.
pub open spec fn sold(purchase: PurchaseRecordView) -> StorePurchaseView {
    StorePurchaseView { product_type: ProductType::Subscription, purchase }
}

/// The entitlement that the stand-in store reports at the time `now`:
/// renewing by itself, with fifteen days to run.
pub open spec fn sample_entitlement_at(now: u64) -> EntitlementRecord {
    EntitlementRecord {
        expiry_date: (now + FIFTEEN_DAYS) as u64,
        auto_renew_status: true,
        is_in_trial_period: false,
        is_in_grace_period: false,
    }
}

/// The record under which the stand-in store lists a product.
pub fn sample_product(id: &String) -> (record: ProductRecord)
    ensures
        record@ == sample_product_view(id@),
{
    ProductRecord {
        id: id.clone(),
        title: String::from_str("Product ").concat(id.as_str()),
        description: String::from_str("Description"),
        price: String::from_str("$9.99"),
        price_amount_micros: 9_990_000,
        currency_code: String::from_str("USD"),
        product_type: String::from_str("Subscription"),
        subscription_period: Some(String::from_str("Month")),
        subscription_period_unit: Some(1),
    }
}

/// Answers a product query as the stand-in store does.
pub fn sample_products(product_ids: &Vec<String>) -> (reply: ProductsReply)
    ensures
        reply@ == ProductsReplyView::Listed(sample_listing(text_views(product_ids@))),
{
    let mut records: Vec<ProductRecord> = Vec::new();
    let mut i: usize = 0;
    let ghost ids = text_views(product_ids@);
    while i < product_ids.len()
        invariant
            i <= product_ids.len(),
            ids == text_views(product_ids@),
            record_views(records@) == sample_listing(ids).take(i as int),
        decreases product_ids.len() - i,
    {
        let ghost before = record_views(records@);
        records.push(sample_product(&product_ids[i]));
        assert(record_views(records@) == before.push(sample_product_view(ids[i as int])));
        i += 1;
    }
    assert(sample_listing(ids).take(i as int) == sample_listing(ids));
    ProductsReply::Listed(records)
}

/// The id of the transaction with the given serial number.
pub fn transaction_id(adapter: Adapter, serial: u64) -> (id: String)
    ensures
        id@ == transaction_text(adapter, serial),
{
    let prefix = match adapter {
        Adapter::Ios => "ios_transaction_",
        Adapter::Android => "android_transaction_",
    };
    String::from_str(prefix).concat(decimal(serial).as_str())
}

/// The record of a purchase made now, under the given serial number.
pub fn sample_purchase_record(
    adapter: Adapter,
    product_id: &String,
    serial: u64,
    now: u64,
) -> (record: PurchaseRecord)
    requires
        now + THIRTY_DAYS <= u64::MAX,
    ensures
        record@ == sample_purchase_view(adapter, product_id@, serial, now),
{
    PurchaseRecord {
        product_id: product_id.clone(),
        transaction_id: transaction_id(adapter, serial),
        purchase_time: now,
        is_acknowledged: true,
        subscription_expiry_time: Some(now + THIRTY_DAYS),
        receipt_data: Some(String::from_str("sample_receipt_data")),
    }
}

/// Completes a purchase as the stand-in store does: under a serial number
/// drawn at random.
pub fn sample_purchase(adapter: Adapter, product_id: &String, now: u64) -> (reply: PurchaseReply)
    requires
        now + THIRTY_DAYS <= u64::MAX,
    ensures
        exists|serial: u64|
            reply@ == PurchaseReplyView::Completed(
                sold(#[trigger] sample_purchase_view(adapter, product_id@, serial, now)),
            ),
{
    let serial = random_serial();
    PurchaseReply::Completed(
        StorePurchase {
            product_type: ProductType::Subscription,
            purchase: sample_purchase_record(adapter, product_id, serial, now),
        },
    )
}

/// The record of the one purchase in the history of the stand-in store.
pub fn sample_restored_record(adapter: Adapter, serial: u64, now: u64) -> (record: PurchaseRecord)
    requires
        FIFTEEN_DAYS <= now,
        now + FIFTEEN_DAYS <= u64::MAX,
    ensures
        record@ == sample_restored_view(adapter, serial, now),
{
    PurchaseRecord {
        product_id: String::from_str("com.example.subscription.monthly"),
        transaction_id: transaction_id(adapter, serial),
        purchase_time: now - FIFTEEN_DAYS,
        is_acknowledged: true,
        subscription_expiry_time: Some(now + FIFTEEN_DAYS),
        receipt_data: Some(String::from_str("sample_receipt_data")),
    }
}

/// Answers a request for the purchase history as the stand-in store does:
/// with its one purchase, under a serial number drawn at random.
pub fn sample_history(adapter: Adapter, now: u64) -> (reply: RestoreReply)
    requires
        FIFTEEN_DAYS <= now,
        now + FIFTEEN_DAYS <= u64::MAX,
    ensures
        exists|serial: u64|
            reply@ == RestoreReplyView::History(
                seq![sold(#[trigger] sample_restored_view(adapter, serial, now))],
            ),
{
    let serial = random_serial();
    let mut reports: Vec<StorePurchase> = Vec::new();
    reports.push(
        StorePurchase {
            product_type: ProductType::Subscription,
            purchase: sample_restored_record(adapter, serial, now),
        },
    );
    assert(purchase_views(reports@) == seq![sold(sample_restored_view(adapter, serial, now))]);
    RestoreReply::History(reports)
}

/// Answers an entitlement query as the stand-in store does.
pub fn sample_entitlement(now: u64) -> (reply: StatusReply)
    requires
        now + FIFTEEN_DAYS <= u64::MAX,
    ensures
        reply@ == StatusReplyView::Entitled(sample_entitlement_at(now)),
{
    StatusReply::Entitled(
        EntitlementRecord {
            expiry_date: now + FIFTEEN_DAYS,
            auto_renew_status: true,
            is_in_trial_period: false,
            is_in_grace_period: false,
        },
    )
}

/// The stand-in store issues one transaction id for each serial number:
/// different serial numbers give different ids.
pub proof fn lemma_transaction_text_injective(adapter: Adapter, a: u64, b: u64)
    requires
        transaction_text(adapter, a) == transaction_text(adapter, b),
    ensures
        a == b,
{
    let prefix = match adapter {
        Adapter::Ios => "ios_transaction_"@,
        Adapter::Android => "android_transaction_"@,
    };
    let text_a = decimal_text(a as nat);
    let text_b = decimal_text(b as nat);
    assert((prefix + text_a).subrange(prefix.len() as int, (prefix + text_a).len() as int)
        == text_a);
    assert((prefix + text_b).subrange(prefix.len() as int, (prefix + text_b).len() as int)
        == text_b);
    lemma_decimal_text_injective(a as nat, b as nat);
}

/// Every record of the stand-in store describes a well-formed product.
pub proof fn lemma_sample_product_is_valid(id: Seq<char>)
    ensures
        sample_product_view(id).to_product() is Ok,
        sample_product_view(id).to_product()->Ok_0 == sample_product_of(id),
        sample_product_of(id).well_formed(),
{
    ProductType::Subscription.lemma_name_round_trip();
    SubscriptionPeriod::Month.lemma_name_round_trip();
}

proof fn lemma_sample_catalogue(ids: Seq<Seq<char>>, n: int)
    requires
        0 <= n <= ids.len(),
    ensures
        catalogue(sample_listing(ids).take(n)) is Ok,
        catalogue(sample_listing(ids).take(n))->Ok_0 == ids.take(n).map_values(
            |id: Seq<char>| sample_product_of(id),
        ),
    decreases n,
{
    let listing = sample_listing(ids).take(n);
    if n > 0 {
        assert(listing.drop_last() == sample_listing(ids).take(n - 1));
        lemma_sample_catalogue(ids, n - 1);
        assert(listing.last() == sample_product_view(ids[n - 1]));
        lemma_sample_product_is_valid(ids[n - 1]);
    }
    assert(catalogue(listing)->Ok_0 == ids.take(n).map_values(
        |id: Seq<char>| sample_product_of(id),
    ));
}

proof fn lemma_sample_selection(ids: Seq<Seq<char>>, n: int)
    requires
        0 <= n <= ids.len(),
    ensures
        selected(ids.take(n), ids.map_values(|id: Seq<char>| sample_product_of(id))) == distinct(
            ids.take(n),
        ).map_values(|id: Seq<char>| sample_product_of(id)),
    decreases n,
{
    let products = ids.map_values(|id: Seq<char>| sample_product_of(id));
    let wanted = ids.take(n);
    if n > 0 {
        assert(wanted.drop_last() == ids.take(n - 1));
        lemma_sample_selection(ids, n - 1);
        let id = wanted.last();
        assert(id == ids[n - 1]);
        lemma_first_match(products, id);
        assert(products[n - 1].id == id);
        let j = first_match(products, id)->Some_0;
        assert(products[j] == sample_product_of(id));
    }
    assert(selected(wanted, products) == distinct(wanted).map_values(
        |id: Seq<char>| sample_product_of(id),
    ));
}

/// The stand-in store knows every id: a request answered from its listing
/// resolves each id that the request names, once and in the order in which
/// the request first names it, to a subscription by the month.
pub proof fn lemma_sample_store_knows_every_id(ids: Seq<Seq<char>>)
    ensures
        resolved(ids, sample_listing(ids)) is Ok,
        resolved(ids, sample_listing(ids))->Ok_0 == distinct(ids).map_values(
            |id: Seq<char>| sample_product_of(id),
        ),
        resolved(ids, sample_listing(ids))->Ok_0.len() == ids.to_set().len(),
{
    let n = ids.len() as int;
    lemma_sample_catalogue(ids, n);
    lemma_sample_selection(ids, n);
    lemma_distinct(ids);
    assert(ids.take(n) == ids);
    assert(sample_listing(ids).take(n) == sample_listing(ids));
}

/// What the stand-in store reports of a purchase describes a purchase: it
/// sells subscriptions only, so an expiry time is in order.
pub proof fn lemma_sample_purchase_is_valid(purchase: PurchaseRecordView)
    ensures
        sold(purchase).to_purchase() is Ok,
        sold(purchase).to_purchase()->Ok_0 == purchase.to_purchase(),
{
}

} // verus!
