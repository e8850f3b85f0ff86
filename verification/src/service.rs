//! The handle to the platform's billing singleton: set once at startup, read
//! ever after.

use crate::error::{failure, unit_outcome, Error, ErrorKind, ErrorView};
use once_cell::sync::OnceCell;
use vstd::prelude::*;

verus! {

/// `once_cell::sync::OnceCell`, opaque to the verifier: what a cell holds is
/// known only through [`cell_contents`].
#[verifier::external_type_specification]
#[verifier::external_body]
#[verifier::reject_recursive_types(T)]
pub struct ExOnceCell<T>(once_cell::sync::OnceCell<T>);

/// What a cell of `once_cell` holds: the empty sequence while it is unset,
/// the one value it was set to afterwards.
pub uninterp spec fn cell_contents(cell: OnceCell<u64>) -> Seq<u64>;

/// `once_cell::sync::OnceCell::new`: the new cell is empty.
#[verifier::external_body]
fn cell_new() -> (cell: OnceCell<u64>)
    ensures
        cell_contents(cell) == Seq::<u64>::empty(),
{
    OnceCell::new()
}

/// `once_cell::sync::OnceCell::set`: an empty cell takes the value and the
/// call returns `Ok(())`; a full cell keeps what it holds and the value comes
/// back as `Err`. The cell is borrowed mutably here, so no other thread can
/// fill it between the test and the write.
#[verifier::external_body]
fn cell_set(cell: &mut OnceCell<u64>, value: u64) -> (r: Result<(), u64>)
    ensures
        cell_contents(*old(cell)).len() == 0 ==> r is Ok && cell_contents(*final(cell))
            == seq![value],
        cell_contents(*old(cell)).len() != 0 ==> r is Err && r->Err_0 == value
            && cell_contents(*final(cell)) == cell_contents(*old(cell)),
{
    cell.set(value)
}

/// `once_cell::sync::OnceCell::get`: `None` for an empty cell, else the value
/// it holds.
#[verifier::external_body]
fn cell_get(cell: &OnceCell<u64>) -> (r: Option<u64>)
    ensures
        r == if cell_contents(*cell).len() == 0 {
            None
        } else {
            Some(cell_contents(*cell)[0])
        },
{
    cell.get().copied()
}

/// The billing service of the platform, as this process knows it. It starts
/// without a handle; [`BillingService::initialize`] gives it one, once.
pub struct BillingService {
    instance: OnceCell<u64>,
}

/// The state that a service is in after an attempt to give it `handle`,
/// and what the attempt returns: a service without a handle takes it; one
/// with a handle keeps its own, and the attempt fails.
pub open spec fn initialized(
    before: Option<u64>,
    handle: u64,
) -> (Option<u64>, Result<(), ErrorView>) {
    match before {
        None => (Some(handle), Ok(())),
        Some(_) => (
            before,
            Err(failure(ErrorKind::Platform, "Failed to initialize Subscriptions"@)),
        ),
    }
}

impl BillingService {
    /// The native handle that the service holds, if it was initialized.
    pub closed spec fn handle(&self) -> Option<u64> {
        if cell_contents(self.instance).len() == 0 {
            None
        } else {
            Some(cell_contents(self.instance)[0])
        }
    }

    /// A service that was not initialized yet.
    pub fn new() -> (service: BillingService)
        ensures
            service.handle() is None,
    {
        BillingService { instance: cell_new() }
    }

    /// Stores the native handle. Only the first call succeeds: a later one
    /// fails with a `PlatformError` and leaves the first handle in place.
    pub fn initialize(&mut self, handle: u64) -> (r: Result<(), Error>)
        ensures
            final(self).handle() == initialized(old(self).handle(), handle).0,
            unit_outcome(r) == initialized(old(self).handle(), handle).1,
    {
        match cell_set(&mut self.instance, handle) {
            Ok(_) => Ok(()),
            Err(_) => Err(Error::new(ErrorKind::Platform, "Failed to initialize Subscriptions")),
        }
    }

    /// The native handle, once the service was initialized.
    pub fn get(&self) -> (handle: Option<u64>)
        ensures
            handle == self.handle(),
    {
        cell_get(&self.instance)
    }

    /// Whether the service was initialized.
    pub fn is_ready(&self) -> (ready: bool)
        ensures
            ready == self.handle() is Some,
    {
        cell_get(&self.instance).is_some()
    }
}

/// Initialization rejects a second attempt and keeps the first handle: the
/// first call on a new service succeeds, and after it every call fails with
/// a `PlatformError`, whatever handle it brings, and leaves the handle of the
/// first call in place.
pub proof fn lemma_initialize_once(first: u64, second: u64)
    ensures
        initialized(None, first).0 == Some(first),
        initialized(None, first).1 is Ok,
        initialized(Some(first), second).0 == Some(first),
        initialized(Some(first), second).1 is Err,
        initialized(Some(first), second).1->Err_0.kind == ErrorKind::Platform,
        initialized(Some(first), second).1 == initialized(Some(first), first).1,
{
}

} // verus!
