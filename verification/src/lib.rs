//! In-app purchases and subscriptions for a host application shell.
//!
//! The library is the platform-independent half of a billing plugin. The
//! shell's glue code talks to the native store (StoreKit on iOS, Play Billing
//! on Android) and hands every answer to this crate as a plain value; the crate
//! decides what the caller gets back: a validated domain value or a typed
//! error. Nothing here performs I/O.

pub mod adapter;
pub mod android;
pub mod completion;
pub mod dispatch;
pub mod error;
pub mod ios;
pub mod model;
pub mod native;
pub mod product;
pub mod purchase;
pub mod sandbox;
pub mod service;
pub mod status;
pub mod text;

pub use adapter::Adapter;
pub use completion::Completion;
pub use dispatch::{
    get_products, get_subscription_status, init, purchase_product, restore_purchases, Platform,
};
pub use error::{Error, ErrorKind, ErrorView};
pub use model::{ProductType, SubscriptionPeriod};
pub use native::{NativeLookup, ProductsReply, PurchaseReply, RestoreReply, StatusReply};
pub use product::{Product, ProductRecord, ProductRecordView, ProductView};
pub use purchase::{
    PurchaseRecord, PurchaseRecordView, PurchaseResult, PurchaseView, StorePurchase,
    StorePurchaseView,
};
pub use service::BillingService;
pub use status::{
    EntitlementRecord, StatusRecord, StatusRecordView, StatusView, SubscriptionStatus,
};
