//! What the native side reports. The host shell's glue code performs each
//! native call and hands its outcome over as one of these plain values.

use crate::completion::Completion;
use crate::product::{ProductRecord, ProductRecordView};
use crate::purchase::{StorePurchase, StorePurchaseView};
use crate::status::EntitlementRecord;
use vstd::prelude::*;

verus! {

/// The views of a list of texts.
pub open spec fn text_views(texts: Seq<String>) -> Seq<Seq<char>> {
    texts.map_values(|text: String| text@)
}

/// The views of a list of product records.
pub open spec fn record_views(records: Seq<ProductRecord>) -> Seq<ProductRecordView> {
    records.map_values(|record: ProductRecord| record@)
}

/// The views of a list of reported purchases.
pub open spec fn purchase_views(reports: Seq<StorePurchase>) -> Seq<StorePurchaseView> {
    reports.map_values(|report: StorePurchase| report@)
}

/// The outcome of looking for the platform's billing singleton.
#[derive(Debug, Clone, Copy, PartialEq, Eq, Structural)]
pub enum NativeLookup {
    /// The singleton was found; the number stands for its native handle.
    Located(u64),
    /// The host context (the activity, the view controller) was not there.
    ContextUnavailable,
    /// The native billing class or object was not there.
    ServiceNotFound,
}

/// The store's answer to a product query.
#[derive(Debug, PartialEq, Eq)]
pub enum ProductsReply {
    /// The products that the store resolved, in its own order.
    Listed(Vec<ProductRecord>),
    /// The native call failed; the text says why.
    Failed(String),
    /// The completion callback never delivered an answer.
    Unanswered,
}

/// A [`ProductsReply`], as a mathematical value.
pub enum ProductsReplyView {
    Listed(Seq<ProductRecordView>),
    Failed(Seq<char>),
    Unanswered,
}

impl View for ProductsReply {
    type V = ProductsReplyView;

    open spec fn view(&self) -> ProductsReplyView {
        match *self {
            ProductsReply::Listed(records) => ProductsReplyView::Listed(record_views(records@)),
            ProductsReply::Failed(detail) => ProductsReplyView::Failed(detail@),
            ProductsReply::Unanswered => ProductsReplyView::Unanswered,
        }
    }
}

impl ProductsReply {
    /// What the store answered through `completion`, or `Unanswered` where
    /// the callback never fired.
    pub fn awaited(completion: Completion<ProductsReply>) -> (reply: ProductsReply)
        ensures
            reply@ == match completion.answer() {
                Some(answer) => answer@,
                None => ProductsReplyView::Unanswered,
            },
    {
        match completion.finish() {
            Some(answer) => answer,
            None => ProductsReply::Unanswered,
        }
    }
}

/// How a purchase flow ended.
#[derive(Debug, PartialEq, Eq)]
pub enum PurchaseReply {
    /// The purchase went through; the report is the platform's account of it.
    Completed(StorePurchase),
    /// The user dismissed the purchase.
    Cancelled,
    /// The store declined the purchase; the text says why.
    Declined(String),
    /// The user owns the product already, and it cannot be bought twice.
    AlreadyOwned,
    /// The native call failed; the text says why.
    Failed(String),
    /// The completion callback never delivered an outcome.
    Unanswered,
}

/// A [`PurchaseReply`], as a mathematical value.
pub enum PurchaseReplyView {
    Completed(StorePurchaseView),
    Cancelled,
    Declined(Seq<char>),
    AlreadyOwned,
    Failed(Seq<char>),
    Unanswered,
}

impl View for PurchaseReply {
    type V = PurchaseReplyView;

    open spec fn view(&self) -> PurchaseReplyView {
        match *self {
            PurchaseReply::Completed(report) => PurchaseReplyView::Completed(report@),
            PurchaseReply::Cancelled => PurchaseReplyView::Cancelled,
            PurchaseReply::Declined(detail) => PurchaseReplyView::Declined(detail@),
            PurchaseReply::AlreadyOwned => PurchaseReplyView::AlreadyOwned,
            PurchaseReply::Failed(detail) => PurchaseReplyView::Failed(detail@),
            PurchaseReply::Unanswered => PurchaseReplyView::Unanswered,
        }
    }
}

impl PurchaseReply {
    /// How the purchase flow ended according to `completion`, or `Unanswered`
    /// where the callback never fired.
    pub fn awaited(completion: Completion<PurchaseReply>) -> (reply: PurchaseReply)
        ensures
            reply@ == match completion.answer() {
                Some(answer) => answer@,
                None => PurchaseReplyView::Unanswered,
            },
    {
        match completion.finish() {
            Some(answer) => answer,
            None => PurchaseReply::Unanswered,
        }
    }
}

/// The store's answer to a request for the purchase history.
#[derive(Debug, PartialEq, Eq)]
pub enum RestoreReply {
    /// The purchases of the account, in the store's order; none is a valid
    /// answer.
    History(Vec<StorePurchase>),
    /// The native call failed; the text says why.
    Failed(String),
    /// The completion callback never delivered an answer.
    Unanswered,
}

/// A [`RestoreReply`], as a mathematical value.
pub enum RestoreReplyView {
    History(Seq<StorePurchaseView>),
    Failed(Seq<char>),
    Unanswered,
}

impl View for RestoreReply {
    type V = RestoreReplyView;

    open spec fn view(&self) -> RestoreReplyView {
        match *self {
            RestoreReply::History(reports) => RestoreReplyView::History(purchase_views(reports@)),
            RestoreReply::Failed(detail) => RestoreReplyView::Failed(detail@),
            RestoreReply::Unanswered => RestoreReplyView::Unanswered,
        }
    }
}

impl RestoreReply {
    /// What the store answered through `completion`, or `Unanswered` where
    /// the callback never fired.
    pub fn awaited(completion: Completion<RestoreReply>) -> (reply: RestoreReply)
        ensures
            reply@ == match completion.answer() {
                Some(answer) => answer@,
                None => RestoreReplyView::Unanswered,
            },
    {
        match completion.finish() {
            Some(answer) => answer,
            None => RestoreReply::Unanswered,
        }
    }
}

/// The store's answer to an entitlement query.
#[derive(Debug, PartialEq, Eq)]
pub enum StatusReply {
    /// The account never purchased the product.
    NeverPurchased,
    /// The account purchased the product at some time; the record says what
    /// the store knows of the subscription.
    Entitled(EntitlementRecord),
    /// The native query failed; the text says why.
    Failed(String),
    /// The completion callback never delivered an answer.
    Unanswered,
}

/// A [`StatusReply`], as a mathematical value.
pub enum StatusReplyView {
    NeverPurchased,
    Entitled(EntitlementRecord),
    Failed(Seq<char>),
    Unanswered,
}

impl View for StatusReply {
    type V = StatusReplyView;

    open spec fn view(&self) -> StatusReplyView {
        match *self {
            StatusReply::NeverPurchased => StatusReplyView::NeverPurchased,
            StatusReply::Entitled(entitlement) => StatusReplyView::Entitled(entitlement),
            StatusReply::Failed(detail) => StatusReplyView::Failed(detail@),
            StatusReply::Unanswered => StatusReplyView::Unanswered,
        }
    }
}

impl StatusReply {
    /// What the store answered through `completion`, or `Unanswered` where
    /// the callback never fired.
    pub fn awaited(completion: Completion<StatusReply>) -> (reply: StatusReply)
        ensures
            reply@ == match completion.answer() {
                Some(answer) => answer@,
                None => StatusReplyView::Unanswered,
            },
    {
        match completion.finish() {
            Some(answer) => answer,
            None => StatusReply::Unanswered,
        }
    }
}

} // verus!
