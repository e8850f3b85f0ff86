//! Purchases, and the flat record in which a purchase crosses a boundary.

use crate::error::{invalid, Error, ErrorKind, ErrorView};
use crate::model::ProductType;
use vstd::prelude::*;

verus! {

/// The view of a text that may be absent.
pub open spec fn optional_text(text: Option<String>) -> Option<Seq<char>> {
    match text {
        Some(text) => Some(text@),
        None => None,
    }
}

/// A purchase as it crosses a boundary: towards the host shell as a command
/// payload, or from the native store as the outcome of a purchase or one
/// entry of the purchase history.
#[derive(Debug, PartialEq, Eq)]
pub struct PurchaseRecord {
    pub product_id: String,
    /// Issued by the platform, one per purchase attempt.
    pub transaction_id: String,
    /// Seconds since the epoch.
    pub purchase_time: u64,
    pub is_acknowledged: bool,
    /// Seconds since the epoch.
    pub subscription_expiry_time: Option<u64>,
    /// The platform's receipt, kept opaque.
    pub receipt_data: Option<String>,
}

/// A [`PurchaseRecord`], as a mathematical value.
pub struct PurchaseRecordView {
    pub product_id: Seq<char>,
    pub transaction_id: Seq<char>,
    pub purchase_time: u64,
    pub is_acknowledged: bool,
    pub subscription_expiry_time: Option<u64>,
    pub receipt_data: Option<Seq<char>>,
}

impl View for PurchaseRecord {
    type V = PurchaseRecordView;

    open spec fn view(&self) -> PurchaseRecordView {
        PurchaseRecordView {
            product_id: self.product_id@,
            transaction_id: self.transaction_id@,
            purchase_time: self.purchase_time,
            is_acknowledged: self.is_acknowledged,
            subscription_expiry_time: self.subscription_expiry_time,
            receipt_data: optional_text(self.receipt_data),
        }
    }
}

impl Clone for PurchaseRecord {
    fn clone(&self) -> (record: PurchaseRecord)
        ensures
            record@ == self@,
    {
        PurchaseRecord {
            product_id: self.product_id.clone(),
            transaction_id: self.transaction_id.clone(),
            purchase_time: self.purchase_time,
            is_acknowledged: self.is_acknowledged,
            subscription_expiry_time: self.subscription_expiry_time,
            receipt_data: match &self.receipt_data {
                Some(receipt) => Some(receipt.clone()),
                None => None,
            },
        }
    }
}

/// A completed purchase.
#[derive(Debug, PartialEq, Eq)]
pub struct PurchaseResult {
    product_id: String,
    transaction_id: String,
    purchase_time: u64,
    is_acknowledged: bool,
    subscription_expiry_time: Option<u64>,
    receipt_data: Option<String>,
}

/// A [`PurchaseResult`], as a mathematical value.
pub struct PurchaseView {
    pub product_id: Seq<char>,
    pub transaction_id: Seq<char>,
    pub purchase_time: u64,
    pub is_acknowledged: bool,
    pub subscription_expiry_time: Option<u64>,
    pub receipt_data: Option<Seq<char>>,
}

impl View for PurchaseResult {
    type V = PurchaseView;

    closed spec fn view(&self) -> PurchaseView {
        PurchaseView {
            product_id: self.product_id@,
            transaction_id: self.transaction_id@,
            purchase_time: self.purchase_time,
            is_acknowledged: self.is_acknowledged,
            subscription_expiry_time: self.subscription_expiry_time,
            receipt_data: optional_text(self.receipt_data),
        }
    }
}

impl Clone for PurchaseResult {
    fn clone(&self) -> (purchase: PurchaseResult)
        ensures
            purchase@ == self@,
    {
        PurchaseResult {
            product_id: self.product_id.clone(),
            transaction_id: self.transaction_id.clone(),
            purchase_time: self.purchase_time,
            is_acknowledged: self.is_acknowledged,
            subscription_expiry_time: self.subscription_expiry_time,
            receipt_data: match &self.receipt_data {
                Some(receipt) => Some(receipt.clone()),
                None => None,
            },
        }
    }
}

impl PurchaseRecordView {
    /// The purchase that a record describes. Every record describes one.
    pub open spec fn to_purchase(self) -> PurchaseView {
        PurchaseView {
            product_id: self.product_id,
            transaction_id: self.transaction_id,
            purchase_time: self.purchase_time,
            is_acknowledged: self.is_acknowledged,
            subscription_expiry_time: self.subscription_expiry_time,
            receipt_data: self.receipt_data,
        }
    }
}

impl PurchaseView {
    /// The flat record of a purchase.
    pub open spec fn to_record(self) -> PurchaseRecordView {
        PurchaseRecordView {
            product_id: self.product_id,
            transaction_id: self.transaction_id,
            purchase_time: self.purchase_time,
            is_acknowledged: self.is_acknowledged,
            subscription_expiry_time: self.subscription_expiry_time,
            receipt_data: self.receipt_data,
        }
    }

    /// Whether this purchase can be one of a product of the given kind: only
    /// the purchase of a subscription has an expiry time.
    pub open spec fn consistent_with(self, product_type: ProductType) -> bool {
        self.subscription_expiry_time is Some ==> product_type == ProductType::Subscription
    }
}

/// A purchase as the native store reports it: the record of the purchase
/// and the kind of the product that was bought. The purchase of anything
/// but a subscription has no expiry time, and a report that gives it one
/// describes no purchase.
#[derive(Debug, PartialEq, Eq)]
pub struct StorePurchase {
    pub product_type: ProductType,
    pub purchase: PurchaseRecord,
}

/// A [`StorePurchase`], as a mathematical value.
pub struct StorePurchaseView {
    pub product_type: ProductType,
    pub purchase: PurchaseRecordView,
}

impl View for StorePurchase {
    type V = StorePurchaseView;

    open spec fn view(&self) -> StorePurchaseView {
        StorePurchaseView { product_type: self.product_type, purchase: self.purchase@ }
    }
}

impl Clone for StorePurchase {
    fn clone(&self) -> (report: StorePurchase)
        ensures
            report@ == self@,
    {
        StorePurchase { product_type: self.product_type, purchase: self.purchase.clone() }
    }
}

impl StorePurchaseView {
    /// The purchase that a report describes, or why it describes none: it
    /// gives an expiry time to the purchase of a product that is no
    /// subscription.
    pub open spec fn to_purchase(self) -> Result<PurchaseView, ErrorView> {
        if self.purchase.to_purchase().consistent_with(self.product_type) {
            Ok(self.purchase.to_purchase())
        } else {
            Err(invalid("Expiry time on a purchase that is no subscription"@))
        }
    }
}

/// What a purchase returned, as a mathematical value.
pub open spec fn purchase_outcome(
    r: Result<PurchaseResult, Error>,
) -> Result<PurchaseView, ErrorView> {
    match r {
        Ok(purchase) => Ok(purchase@),
        Err(e) => Err(e@),
    }
}

impl PurchaseResult {
    /// Validates what the store reports and turns it into a purchase.
    pub fn from_store(report: &StorePurchase) -> (r: Result<PurchaseResult, Error>)
        ensures
            purchase_outcome(r) == report@.to_purchase(),
            r is Ok ==> r->Ok_0@.consistent_with(report.product_type),
    {
        let purchase = PurchaseResult::from_record(&report.purchase);
        if purchase.is_consistent_with(report.product_type) {
            Ok(purchase)
        } else {
            Err(
                Error::new(
                    ErrorKind::Validation,
                    "Expiry time on a purchase that is no subscription",
                ),
            )
        }
    }

    /// The purchase that a record describes.
    pub fn from_record(record: &PurchaseRecord) -> (purchase: PurchaseResult)
        ensures
            purchase@ == record@.to_purchase(),
    {
        PurchaseResult {
            product_id: record.product_id.clone(),
            transaction_id: record.transaction_id.clone(),
            purchase_time: record.purchase_time,
            is_acknowledged: record.is_acknowledged,
            subscription_expiry_time: record.subscription_expiry_time,
            receipt_data: match &record.receipt_data {
                Some(receipt) => Some(receipt.clone()),
                None => None,
            },
        }
    }

    /// The flat record of this purchase.
    pub fn to_record(&self) -> (record: PurchaseRecord)
        ensures
            record@ == self@.to_record(),
    {
        PurchaseRecord {
            product_id: self.product_id.clone(),
            transaction_id: self.transaction_id.clone(),
            purchase_time: self.purchase_time,
            is_acknowledged: self.is_acknowledged,
            subscription_expiry_time: self.subscription_expiry_time,
            receipt_data: match &self.receipt_data {
                Some(receipt) => Some(receipt.clone()),
                None => None,
            },
        }
    }

    /// Whether this purchase can be one of a product of the given kind.
    pub fn is_consistent_with(&self, product_type: ProductType) -> (consistent: bool)
        ensures
            consistent == self@.consistent_with(product_type),
    {
        self.subscription_expiry_time.is_none() || product_type == ProductType::Subscription
    }

    pub fn product_id(&self) -> (id: &String)
        ensures
            id@ == self@.product_id,
    {
        &self.product_id
    }

    pub fn transaction_id(&self) -> (id: &String)
        ensures
            id@ == self@.transaction_id,
    {
        &self.transaction_id
    }

    pub fn purchase_time(&self) -> (time: u64)
        ensures
            time == self@.purchase_time,
    {
        self.purchase_time
    }

    pub fn is_acknowledged(&self) -> (acknowledged: bool)
        ensures
            acknowledged == self@.is_acknowledged,
    {
        self.is_acknowledged
    }

    pub fn subscription_expiry_time(&self) -> (time: Option<u64>)
        ensures
            time == self@.subscription_expiry_time,
    {
        self.subscription_expiry_time
    }

    pub fn receipt_data(&self) -> (receipt: &Option<String>)
        ensures
            optional_text(*receipt) == self@.receipt_data,
    {
        &self.receipt_data
    }
}

/// A report that describes a purchase describes one that is consistent with
/// the kind of its product: it has an expiry time only if the product is a
/// subscription.
pub proof fn lemma_purchase_of_report_is_consistent(report: StorePurchaseView)
    ensures
        report.to_purchase() matches Ok(purchase) ==> purchase == report.purchase.to_purchase()
            && purchase.consistent_with(report.product_type),
        report.to_purchase() is Err <==> report.purchase.subscription_expiry_time is Some
            && report.product_type != ProductType::Subscription,
{
}

/// A purchase is read back unchanged from its own record.
pub proof fn lemma_purchase_round_trip(purchase: PurchaseView)
    ensures
        purchase.to_record().to_purchase() == purchase,
{
}

} // verus!
