//! The domain model: products, purchases and subscription status.

use vstd::prelude::*;

verus! {

/// What kind of thing a product is.
#[derive(Debug, Clone, Copy, PartialEq, Eq, Structural)]
pub enum ProductType {
    Consumable,
    NonConsumable,
    Subscription,
}

/// The unit in which the length of a subscription period is counted.
#[derive(Debug, Clone, Copy, PartialEq, Eq, Structural)]
pub enum SubscriptionPeriod {
    Day,
    Week,
    Month,
    Year,
}

impl ProductType {
    /// The name under which this kind travels in a flat record.
    pub open spec fn spec_name(self) -> Seq<char> {
        match self {
            ProductType::Consumable => "Consumable"@,
            ProductType::NonConsumable => "NonConsumable"@,
            ProductType::Subscription => "Subscription"@,
        }
    }

    /// The kind that a name stands for, if it stands for one.
    pub open spec fn spec_from_name(name: Seq<char>) -> Option<ProductType> {
        if name == "Consumable"@ {
            Some(ProductType::Consumable)
        } else if name == "NonConsumable"@ {
            Some(ProductType::NonConsumable)
        } else if name == "Subscription"@ {
            Some(ProductType::Subscription)
        } else {
            None
        }
    }

    /// The name under which this value travels in a flat record.
    pub fn name(&self) -> (s: &'static str)
        ensures
            s@ == self.spec_name(),
    {
        match self {
            ProductType::Consumable => "Consumable",
            ProductType::NonConsumable => "NonConsumable",
            ProductType::Subscription => "Subscription",
        }
    }

    /// Reads a kind from its name; `None` for any other text.
    pub fn from_name(name: &str) -> (r: Option<ProductType>)
        ensures
            r == Self::spec_from_name(name@),
    {
        let name = String::from_str(name);
        if name == String::from_str("Consumable") {
            Some(ProductType::Consumable)
        } else if name == String::from_str("NonConsumable") {
            Some(ProductType::NonConsumable)
        } else if name == String::from_str("Subscription") {
            Some(ProductType::Subscription)
        } else {
            None
        }
    }

    /// Every kind is read back from its own name.
    pub proof fn lemma_name_round_trip(self)
        ensures
            Self::spec_from_name(self.spec_name()) == Some(self),
    {
        reveal_strlit("Consumable");
        reveal_strlit("NonConsumable");
        reveal_strlit("Subscription");
        assert("Consumable"@.len() == 10);
        assert("NonConsumable"@.len() == 13);
        assert("Subscription"@.len() == 12);
    }
}

impl SubscriptionPeriod {
    /// The name under which this unit travels in a flat record.
    pub open spec fn spec_name(self) -> Seq<char> {
        match self {
            SubscriptionPeriod::Day => "Day"@,
            SubscriptionPeriod::Week => "Week"@,
            SubscriptionPeriod::Month => "Month"@,
            SubscriptionPeriod::Year => "Year"@,
        }
    }

    /// The unit that a name stands for, if it stands for one.
    pub open spec fn spec_from_name(name: Seq<char>) -> Option<SubscriptionPeriod> {
        if name == "Day"@ {
            Some(SubscriptionPeriod::Day)
        } else if name == "Week"@ {
            Some(SubscriptionPeriod::Week)
        } else if name == "Month"@ {
            Some(SubscriptionPeriod::Month)
        } else if name == "Year"@ {
            Some(SubscriptionPeriod::Year)
        } else {
            None
        }
    }

    /// The name under which this value travels in a flat record.
    pub fn name(&self) -> (s: &'static str)
        ensures
            s@ == self.spec_name(),
    {
        match self {
            SubscriptionPeriod::Day => "Day",
            SubscriptionPeriod::Week => "Week",
            SubscriptionPeriod::Month => "Month",
            SubscriptionPeriod::Year => "Year",
        }
    }

    /// Reads a unit from its name; `None` for any other text.
    pub fn from_name(name: &str) -> (r: Option<SubscriptionPeriod>)
        ensures
            r == Self::spec_from_name(name@),
    {
        let name = String::from_str(name);
        if name == String::from_str("Day") {
            Some(SubscriptionPeriod::Day)
        } else if name == String::from_str("Week") {
            Some(SubscriptionPeriod::Week)
        } else if name == String::from_str("Month") {
            Some(SubscriptionPeriod::Month)
        } else if name == String::from_str("Year") {
            Some(SubscriptionPeriod::Year)
        } else {
            None
        }
    }

    /// Every unit is read back from its own name.
    pub proof fn lemma_name_round_trip(self)
        ensures
            Self::spec_from_name(self.spec_name()) == Some(self),
    {
        reveal_strlit("Day");
        reveal_strlit("Week");
        reveal_strlit("Month");
        reveal_strlit("Year");
        assert("Day"@.len() == 3);
        assert("Month"@.len() == 5);
        assert("Week"@[0] == 'W');
        assert("Year"@[0] == 'Y');
    }
}

} // verus!
