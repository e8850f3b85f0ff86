//! The error type shared by every operation.

use vstd::prelude::*;

verus! {

/// The five families of failure. All are terminal for the request in which
/// they occur: nothing in this crate retries.
#[derive(Debug, Clone, Copy, PartialEq, Eq, Structural)]
pub enum ErrorKind {
    ProductRetrieval,
    Purchase,
    Subscription,
    Validation,
    Platform,
}

/// A failure together with the detail reported for it.
#[derive(Debug, PartialEq, Eq)]
pub enum Error {
    /// The store could not list products, or its answer was malformed.
    ProductRetrievalError(String),
    /// A purchase was declined, cancelled, conflicted with an owned product,
    /// or the native call failed.
    PurchaseError(String),
    /// The entitlement query failed.
    SubscriptionError(String),
    /// A value does not satisfy the invariant of its type.
    ValidationError(String),
    /// The build target has no billing adapter, or the native billing handle
    /// could not be obtained.
    PlatformError(String),
}

/// What an [`Error`] is, as a mathematical value.
pub struct ErrorView {
    pub kind: ErrorKind,
    pub detail: Seq<char>,
}

impl View for Error {
    type V = ErrorView;

    open spec fn view(&self) -> ErrorView {
        match *self {
            Error::ProductRetrievalError(s) => ErrorView {
                kind: ErrorKind::ProductRetrieval,
                detail: s@,
            },
            Error::PurchaseError(s) => ErrorView { kind: ErrorKind::Purchase, detail: s@ },
            Error::SubscriptionError(s) => ErrorView { kind: ErrorKind::Subscription, detail: s@ },
            Error::ValidationError(s) => ErrorView { kind: ErrorKind::Validation, detail: s@ },
            Error::PlatformError(s) => ErrorView { kind: ErrorKind::Platform, detail: s@ },
        }
    }
}

impl Clone for Error {
    fn clone(&self) -> (e: Error)
        ensures
            e@ == self@,
    {
        match self {
            Error::ProductRetrievalError(s) => Error::ProductRetrievalError(s.clone()),
            Error::PurchaseError(s) => Error::PurchaseError(s.clone()),
            Error::SubscriptionError(s) => Error::SubscriptionError(s.clone()),
            Error::ValidationError(s) => Error::ValidationError(s.clone()),
            Error::PlatformError(s) => Error::PlatformError(s.clone()),
        }
    }
}

/// The error of the given kind that carries `detail`.
pub open spec fn failure(kind: ErrorKind, detail: Seq<char>) -> ErrorView {
    ErrorView { kind, detail }
}

/// The validation error that carries `detail`.
pub open spec fn invalid(detail: Seq<char>) -> ErrorView {
    failure(ErrorKind::Validation, detail)
}

/// What an operation without a value returned, as a mathematical value.
pub open spec fn unit_outcome(r: Result<(), Error>) -> Result<(), ErrorView> {
    match r {
        Ok(_) => Ok(()),
        Err(e) => Err(e@),
    }
}

/// The text that introduces the detail of an error of the given kind.
pub open spec fn prefix(kind: ErrorKind) -> Seq<char> {
    match kind {
        ErrorKind::ProductRetrieval => "Failed to retrieve products: "@,
        ErrorKind::Purchase => "Purchase failed: "@,
        ErrorKind::Subscription => "Subscription management error: "@,
        ErrorKind::Validation => "Validation error: "@,
        ErrorKind::Platform => "Platform-specific error: "@,
    }
}

/// The full message of an error: the prefix of its kind, then its detail.
pub open spec fn message_of(e: ErrorView) -> Seq<char> {
    prefix(e.kind) + e.detail
}

impl Error {
    /// Builds the error of the given kind that carries `detail`.
    pub fn new(kind: ErrorKind, detail: &str) -> (e: Error)
        ensures
            e@ == failure(kind, detail@),
    {
        let text = String::from_str(detail);
        match kind {
            ErrorKind::ProductRetrieval => Error::ProductRetrievalError(text),
            ErrorKind::Purchase => Error::PurchaseError(text),
            ErrorKind::Subscription => Error::SubscriptionError(text),
            ErrorKind::Validation => Error::ValidationError(text),
            ErrorKind::Platform => Error::PlatformError(text),
        }
    }

    /// The family this error belongs to.
    pub fn kind(&self) -> (k: ErrorKind)
        ensures
            k == self@.kind,
    {
        match self {
            Error::ProductRetrievalError(_) => ErrorKind::ProductRetrieval,
            Error::PurchaseError(_) => ErrorKind::Purchase,
            Error::SubscriptionError(_) => ErrorKind::Subscription,
            Error::ValidationError(_) => ErrorKind::Validation,
            Error::PlatformError(_) => ErrorKind::Platform,
        }
    }

    /// The detail carried by this error, without the prefix of its kind.
    pub fn detail(&self) -> (d: &String)
        ensures
            d@ == self@.detail,
    {
        match self {
            Error::ProductRetrievalError(s) => s,
            Error::PurchaseError(s) => s,
            Error::SubscriptionError(s) => s,
            Error::ValidationError(s) => s,
            Error::PlatformError(s) => s,
        }
    }

    /// The message shown for this error.
    pub fn message(&self) -> (m: String)
        ensures
            m@ == message_of(self@),
    {
        let head = match self {
            Error::ProductRetrievalError(_) => "Failed to retrieve products: ",
            Error::PurchaseError(_) => "Purchase failed: ",
            Error::SubscriptionError(_) => "Subscription management error: ",
            Error::ValidationError(_) => "Validation error: ",
            Error::PlatformError(_) => "Platform-specific error: ",
        };
        String::from_str(head).concat(self.detail().as_str())
    }
}

} // verus!
