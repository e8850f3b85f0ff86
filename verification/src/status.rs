//! Subscription status: the entitlement that the store reports, and the
//! status derived from it.

use crate::error::{invalid, Error, ErrorKind, ErrorView};
use vstd::prelude::*;

verus! {

/// What the store reports of a subscription that was purchased at some time.
#[derive(Debug, Clone, Copy, PartialEq, Eq, Structural)]
pub struct EntitlementRecord {
    /// Until when access is granted, in seconds since the epoch.
    pub expiry_date: u64,
    pub auto_renew_status: bool,
    pub is_in_trial_period: bool,
    pub is_in_grace_period: bool,
}

/// A subscription status as it crosses the boundary towards the host shell.
#[derive(Debug, PartialEq, Eq)]
pub struct StatusRecord {
    pub product_id: String,
    pub is_active: bool,
    pub expiry_date: Option<u64>,
    pub auto_renew_status: bool,
    pub is_in_trial_period: bool,
    pub is_in_grace_period: bool,
}

/// A [`StatusRecord`], as a mathematical value.
pub struct StatusRecordView {
    pub product_id: Seq<char>,
    pub is_active: bool,
    pub expiry_date: Option<u64>,
    pub auto_renew_status: bool,
    pub is_in_trial_period: bool,
    pub is_in_grace_period: bool,
}

impl View for StatusRecord {
    type V = StatusRecordView;

    open spec fn view(&self) -> StatusRecordView {
        StatusRecordView {
            product_id: self.product_id@,
            is_active: self.is_active,
            expiry_date: self.expiry_date,
            auto_renew_status: self.auto_renew_status,
            is_in_trial_period: self.is_in_trial_period,
            is_in_grace_period: self.is_in_grace_period,
        }
    }
}

impl Clone for StatusRecord {
    fn clone(&self) -> (record: StatusRecord)
        ensures
            record@ == self@,
    {
        StatusRecord {
            product_id: self.product_id.clone(),
            is_active: self.is_active,
            expiry_date: self.expiry_date,
            auto_renew_status: self.auto_renew_status,
            is_in_trial_period: self.is_in_trial_period,
            is_in_grace_period: self.is_in_grace_period,
        }
    }
}

/// The current entitlement to a subscription product. A trial period and a
/// grace period exclude each other, and the expiry date is absent only where
/// the product was never purchased, in which case no flag is set.
#[derive(Debug, PartialEq, Eq)]
pub struct SubscriptionStatus {
    product_id: String,
    is_active: bool,
    expiry_date: Option<u64>,
    auto_renew_status: bool,
    is_in_trial_period: bool,
    is_in_grace_period: bool,
}

/// A [`SubscriptionStatus`], as a mathematical value.
pub struct StatusView {
    pub product_id: Seq<char>,
    pub is_active: bool,
    pub expiry_date: Option<u64>,
    pub auto_renew_status: bool,
    pub is_in_trial_period: bool,
    pub is_in_grace_period: bool,
}

impl View for SubscriptionStatus {
    type V = StatusView;

    closed spec fn view(&self) -> StatusView {
        StatusView {
            product_id: self.product_id@,
            is_active: self.is_active,
            expiry_date: self.expiry_date,
            auto_renew_status: self.auto_renew_status,
            is_in_trial_period: self.is_in_trial_period,
            is_in_grace_period: self.is_in_grace_period,
        }
    }
}

impl StatusView {
    /// The product was never purchased: the store knows no expiry date.
    pub open spec fn never_purchased(self) -> bool {
        self.expiry_date is None
    }

    /// The invariant of a subscription status.
    pub open spec fn well_formed(self) -> bool {
        &&& !(self.is_in_trial_period && self.is_in_grace_period)
        &&& self.never_purchased() ==> !self.is_active && !self.auto_renew_status
            && !self.is_in_trial_period && !self.is_in_grace_period
    }

    /// The status of a product that was never purchased.
    pub open spec fn unpurchased(product_id: Seq<char>) -> StatusView {
        StatusView {
            product_id,
            is_active: false,
            expiry_date: None,
            auto_renew_status: false,
            is_in_trial_period: false,
            is_in_grace_period: false,
        }
    }

    /// The status that follows from an entitlement at the time `now`: the
    /// subscription is active while `now` lies before the expiry date, and
    /// lapsed from then on. An entitlement that claims a trial period and a
    /// grace period at once describes no status.
    pub open spec fn of_entitlement(
        product_id: Seq<char>,
        entitlement: EntitlementRecord,
        now: u64,
    ) -> Result<StatusView, ErrorView> {
        if entitlement.is_in_trial_period && entitlement.is_in_grace_period {
            Err(invalid("Trial period and grace period at once"@))
        } else {
            Ok(
                StatusView {
                    product_id,
                    is_active: now < entitlement.expiry_date,
                    expiry_date: Some(entitlement.expiry_date),
                    auto_renew_status: entitlement.auto_renew_status,
                    is_in_trial_period: entitlement.is_in_trial_period,
                    is_in_grace_period: entitlement.is_in_grace_period,
                },
            )
        }
    }

    /// The flat record of a status.
    pub open spec fn to_record(self) -> StatusRecordView {
        StatusRecordView {
            product_id: self.product_id,
            is_active: self.is_active,
            expiry_date: self.expiry_date,
            auto_renew_status: self.auto_renew_status,
            is_in_trial_period: self.is_in_trial_period,
            is_in_grace_period: self.is_in_grace_period,
        }
    }
}

impl StatusRecordView {
    /// The status that a record describes, or why it describes none: the
    /// record of a trial period and a grace period at once, or that of an
    /// entitlement without an expiry date.
    pub open spec fn to_status(self) -> Result<StatusView, ErrorView> {
        let status = StatusView {
            product_id: self.product_id,
            is_active: self.is_active,
            expiry_date: self.expiry_date,
            auto_renew_status: self.auto_renew_status,
            is_in_trial_period: self.is_in_trial_period,
            is_in_grace_period: self.is_in_grace_period,
        };
        if self.is_in_trial_period && self.is_in_grace_period {
            Err(invalid("Trial period and grace period at once"@))
        } else if !status.well_formed() {
            Err(invalid("Entitlement without an expiry date"@))
        } else {
            Ok(status)
        }
    }
}

/// What building a status returned, as a mathematical value.
pub open spec fn status_outcome(
    r: Result<SubscriptionStatus, Error>,
) -> Result<StatusView, ErrorView> {
    match r {
        Ok(status) => Ok(status@),
        Err(e) => Err(e@),
    }
}

impl Clone for SubscriptionStatus {
    fn clone(&self) -> (status: SubscriptionStatus)
        ensures
            status@ == self@,
    {
        proof {
            use_type_invariant(self);
        }
        SubscriptionStatus {
            product_id: self.product_id.clone(),
            is_active: self.is_active,
            expiry_date: self.expiry_date,
            auto_renew_status: self.auto_renew_status,
            is_in_trial_period: self.is_in_trial_period,
            is_in_grace_period: self.is_in_grace_period,
        }
    }
}

impl SubscriptionStatus {
    #[verifier::type_invariant]
    closed spec fn inv(&self) -> bool {
        self@.well_formed()
    }

    /// The status of a product that was never purchased: not active, no
    /// expiry date, no flag set.
    pub fn never_purchased(product_id: &str) -> (status: SubscriptionStatus)
        ensures
            status@ == StatusView::unpurchased(product_id@),
    {
        SubscriptionStatus {
            product_id: String::from_str(product_id),
            is_active: false,
            expiry_date: None,
            auto_renew_status: false,
            is_in_trial_period: false,
            is_in_grace_period: false,
        }
    }

    /// Derives the status from what the store reports, at the time `now`.
    pub fn from_entitlement(
        product_id: &str,
        entitlement: &EntitlementRecord,
        now: u64,
    ) -> (r: Result<SubscriptionStatus, Error>)
        ensures
            status_outcome(r) == StatusView::of_entitlement(product_id@, *entitlement, now),
    {
        if entitlement.is_in_trial_period && entitlement.is_in_grace_period {
            return Err(Error::new(ErrorKind::Validation, "Trial period and grace period at once"));
        }
        Ok(
            SubscriptionStatus {
                product_id: String::from_str(product_id),
                is_active: now < entitlement.expiry_date,
                expiry_date: Some(entitlement.expiry_date),
                auto_renew_status: entitlement.auto_renew_status,
                is_in_trial_period: entitlement.is_in_trial_period,
                is_in_grace_period: entitlement.is_in_grace_period,
            },
        )
    }

    /// Validates a record and turns it into a status.
    pub fn from_record(record: &StatusRecord) -> (r: Result<SubscriptionStatus, Error>)
        ensures
            status_outcome(r) == record@.to_status(),
    {
        if record.is_in_trial_period && record.is_in_grace_period {
            return Err(Error::new(ErrorKind::Validation, "Trial period and grace period at once"));
        }
        if record.expiry_date.is_none() && (record.is_active || record.auto_renew_status
            || record.is_in_trial_period || record.is_in_grace_period) {
            return Err(Error::new(ErrorKind::Validation, "Entitlement without an expiry date"));
        }
        Ok(
            SubscriptionStatus {
                product_id: record.product_id.clone(),
                is_active: record.is_active,
                expiry_date: record.expiry_date,
                auto_renew_status: record.auto_renew_status,
                is_in_trial_period: record.is_in_trial_period,
                is_in_grace_period: record.is_in_grace_period,
            },
        )
    }

    /// The flat record of this status.
    pub fn to_record(&self) -> (record: StatusRecord)
        ensures
            record@ == self@.to_record(),
            self@.well_formed(),
    {
        proof {
            use_type_invariant(self);
        }
        StatusRecord {
            product_id: self.product_id.clone(),
            is_active: self.is_active,
            expiry_date: self.expiry_date,
            auto_renew_status: self.auto_renew_status,
            is_in_trial_period: self.is_in_trial_period,
            is_in_grace_period: self.is_in_grace_period,
        }
    }

    pub fn product_id(&self) -> (id: &String)
        ensures
            id@ == self@.product_id,
    {
        &self.product_id
    }

    pub fn is_active(&self) -> (active: bool)
        ensures
            active == self@.is_active,
            active ==> self@.expiry_date is Some,
    {
        proof {
            use_type_invariant(self);
        }
        self.is_active
    }

    pub fn expiry_date(&self) -> (date: Option<u64>)
        ensures
            date == self@.expiry_date,
    {
        self.expiry_date
    }

    pub fn auto_renew_status(&self) -> (auto_renew: bool)
        ensures
            auto_renew == self@.auto_renew_status,
    {
        self.auto_renew_status
    }

    pub fn is_in_trial_period(&self) -> (trial: bool)
        ensures
            trial == self@.is_in_trial_period,
            trial ==> !self@.is_in_grace_period,
    {
        proof {
            use_type_invariant(self);
        }
        self.is_in_trial_period
    }

    pub fn is_in_grace_period(&self) -> (grace: bool)
        ensures
            grace == self@.is_in_grace_period,
            grace ==> !self@.is_in_trial_period,
    {
        proof {
            use_type_invariant(self);
        }
        self.is_in_grace_period
    }
}

/// A well-formed status is read back unchanged from its own record.
pub proof fn lemma_status_round_trip(status: StatusView)
    requires
        status.well_formed(),
    ensures
        status.to_record().to_status() is Ok,
        status.to_record().to_status()->Ok_0 == status,
{
}

/// A record that describes a status describes a well-formed one.
pub proof fn lemma_status_of_record_is_well_formed(record: StatusRecordView)
    ensures
        record.to_status() matches Ok(status) ==> status.well_formed(),
{
}

/// Whatever the store reports and whenever it is asked, the status derived
/// from it is well formed and has an expiry date; it is active exactly
/// before that date.
pub proof fn lemma_entitlement_status(
    product_id: Seq<char>,
    entitlement: EntitlementRecord,
    now: u64,
)
    ensures
        StatusView::of_entitlement(product_id, entitlement, now) matches Ok(status) ==> {
            &&& status.well_formed()
            &&& status.expiry_date == Some(entitlement.expiry_date)
            &&& status.is_active <==> now < entitlement.expiry_date
        },
{
}

} // verus!
