//! Products, and the flat record in which a product crosses a boundary.

use crate::error::{invalid, Error, ErrorKind, ErrorView};
use crate::model::{ProductType, SubscriptionPeriod};
use vstd::prelude::*;

verus! {

/// A product as it crosses a boundary: towards the host shell as a command
/// payload, or from the native store as one entry of its answer. Every field
/// is plain, the kind and the period unit travel under their names, and no
/// invariant is promised.
#[derive(Debug, PartialEq, Eq)]
pub struct ProductRecord {
    pub id: String,
    pub title: String,
    pub description: String,
    /// The localized price, ready for display.
    pub price: String,
    /// The price in millionths of the currency unit.
    pub price_amount_micros: u64,
    pub currency_code: String,
    pub product_type: String,
    pub subscription_period: Option<String>,
    pub subscription_period_unit: Option<u32>,
}

/// A [`ProductRecord`], as a mathematical value.
pub struct ProductRecordView {
    pub id: Seq<char>,
    pub title: Seq<char>,
    pub description: Seq<char>,
    pub price: Seq<char>,
    pub price_amount_micros: u64,
    pub currency_code: Seq<char>,
    pub product_type: Seq<char>,
    pub subscription_period: Option<Seq<char>>,
    pub subscription_period_unit: Option<u32>,
}

impl View for ProductRecord {
    type V = ProductRecordView;

    open spec fn view(&self) -> ProductRecordView {
        ProductRecordView {
            id: self.id@,
            title: self.title@,
            description: self.description@,
            price: self.price@,
            price_amount_micros: self.price_amount_micros,
            currency_code: self.currency_code@,
            product_type: self.product_type@,
            subscription_period: match self.subscription_period {
                Some(name) => Some(name@),
                None => None,
            },
            subscription_period_unit: self.subscription_period_unit,
        }
    }
}

impl Clone for ProductRecord {
    fn clone(&self) -> (record: ProductRecord)
        ensures
            record@ == self@,
    {
        ProductRecord {
            id: self.id.clone(),
            title: self.title.clone(),
            description: self.description.clone(),
            price: self.price.clone(),
            price_amount_micros: self.price_amount_micros,
            currency_code: self.currency_code.clone(),
            product_type: self.product_type.clone(),
            subscription_period: match &self.subscription_period {
                Some(name) => Some(name.clone()),
                None => None,
            },
            subscription_period_unit: self.subscription_period_unit,
        }
    }
}

/// A product of the store. The subscription period and its unit count are
/// present exactly when the product is a subscription.
#[derive(Debug, PartialEq, Eq)]
pub struct Product {
    id: String,
    title: String,
    description: String,
    price: String,
    price_amount_micros: u64,
    currency_code: String,
    product_type: ProductType,
    subscription_period: Option<SubscriptionPeriod>,
    subscription_period_unit: Option<u32>,
}

/// A [`Product`], as a mathematical value.
pub struct ProductView {
    pub id: Seq<char>,
    pub title: Seq<char>,
    pub description: Seq<char>,
    pub price: Seq<char>,
    pub price_amount_micros: u64,
    pub currency_code: Seq<char>,
    pub product_type: ProductType,
    pub subscription_period: Option<SubscriptionPeriod>,
    pub subscription_period_unit: Option<u32>,
}

impl View for Product {
    type V = ProductView;

    closed spec fn view(&self) -> ProductView {
        ProductView {
            id: self.id@,
            title: self.title@,
            description: self.description@,
            price: self.price@,
            price_amount_micros: self.price_amount_micros,
            currency_code: self.currency_code@,
            product_type: self.product_type,
            subscription_period: self.subscription_period,
            subscription_period_unit: self.subscription_period_unit,
        }
    }
}

impl Clone for Product {
    fn clone(&self) -> (product: Product)
        ensures
            product@ == self@,
    {
        proof {
            use_type_invariant(self);
        }
        Product {
            id: self.id.clone(),
            title: self.title.clone(),
            description: self.description.clone(),
            price: self.price.clone(),
            price_amount_micros: self.price_amount_micros,
            currency_code: self.currency_code.clone(),
            product_type: self.product_type,
            subscription_period: self.subscription_period,
            subscription_period_unit: self.subscription_period_unit,
        }
    }
}

impl ProductView {
    /// The invariant of a product: the period and its unit count are present
    /// if and only if the kind is `Subscription`.
    pub open spec fn well_formed(self) -> bool {
        &&& self.product_type == ProductType::Subscription <==> self.subscription_period is Some
        &&& self.product_type == ProductType::Subscription
            <==> self.subscription_period_unit is Some
    }

    /// The flat record of a product.
    pub open spec fn to_record(self) -> ProductRecordView {
        ProductRecordView {
            id: self.id,
            title: self.title,
            description: self.description,
            price: self.price,
            price_amount_micros: self.price_amount_micros,
            currency_code: self.currency_code,
            product_type: self.product_type.spec_name(),
            subscription_period: match self.subscription_period {
                Some(period) => Some(period.spec_name()),
                None => None,
            },
            subscription_period_unit: self.subscription_period_unit,
        }
    }
}

/// The period unit named in a record: `Some(None)` where the record names
/// none, `None` where it names one that does not exist.
pub open spec fn period_of(name: Option<Seq<char>>) -> Option<Option<SubscriptionPeriod>> {
    match name {
        None => Some(None),
        Some(name) => match SubscriptionPeriod::spec_from_name(name) {
            Some(period) => Some(Some(period)),
            None => None,
        },
    }
}

impl ProductRecordView {
    /// The product that a record describes, or why it describes none. The
    /// kind is read first, then the period unit; then the invariant is
    /// checked: a subscription needs both its period unit and the count of
    /// units, and no other kind may have either.
    pub open spec fn to_product(self) -> Result<ProductView, ErrorView> {
        match ProductType::spec_from_name(self.product_type) {
            None => Err(invalid("Unknown product type"@)),
            Some(product_type) => match period_of(self.subscription_period) {
                None => Err(invalid("Unknown subscription period"@)),
                Some(subscription_period) => {
                    let product = ProductView {
                        id: self.id,
                        title: self.title,
                        description: self.description,
                        price: self.price,
                        price_amount_micros: self.price_amount_micros,
                        currency_code: self.currency_code,
                        product_type,
                        subscription_period,
                        subscription_period_unit: self.subscription_period_unit,
                    };
                    if product.well_formed() {
                        Ok(product)
                    } else if product_type == ProductType::Subscription {
                        Err(invalid("Subscription without a subscription period"@))
                    } else {
                        Err(invalid("Subscription period on a product that is no subscription"@))
                    }
                },
            },
        }
    }
}

/// What building a product returned, as a mathematical value.
pub open spec fn product_outcome(r: Result<Product, Error>) -> Result<ProductView, ErrorView> {
    match r {
        Ok(product) => Ok(product@),
        Err(e) => Err(e@),
    }
}

impl Product {
    #[verifier::type_invariant]
    closed spec fn inv(&self) -> bool {
        self@.well_formed()
    }

    /// Validates a record and turns it into a product.
    pub fn from_record(record: &ProductRecord) -> (r: Result<Product, Error>)
        ensures
            product_outcome(r) == record@.to_product(),
    {
        let product_type = match ProductType::from_name(record.product_type.as_str()) {
            Some(product_type) => product_type,
            None => {
                return Err(Error::new(ErrorKind::Validation, "Unknown product type"));
            },
        };
        let subscription_period = match &record.subscription_period {
            None => None,
            Some(name) => match SubscriptionPeriod::from_name(name.as_str()) {
                Some(period) => Some(period),
                None => {
                    return Err(Error::new(ErrorKind::Validation, "Unknown subscription period"));
                },
            },
        };
        let is_subscription = product_type == ProductType::Subscription;
        let has_period = subscription_period.is_some();
        let has_unit = record.subscription_period_unit.is_some();
        if is_subscription != has_period || is_subscription != has_unit {
            let detail = if is_subscription {
                "Subscription without a subscription period"
            } else {
                "Subscription period on a product that is no subscription"
            };
            return Err(Error::new(ErrorKind::Validation, detail));
        }
        Ok(
            Product {
                id: record.id.clone(),
                title: record.title.clone(),
                description: record.description.clone(),
                price: record.price.clone(),
                price_amount_micros: record.price_amount_micros,
                currency_code: record.currency_code.clone(),
                product_type,
                subscription_period,
                subscription_period_unit: record.subscription_period_unit,
            },
        )
    }

    /// The flat record of this product.
    pub fn to_record(&self) -> (record: ProductRecord)
        ensures
            record@ == self@.to_record(),
            self@.well_formed(),
    {
        proof {
            use_type_invariant(self);
        }
        ProductRecord {
            id: self.id.clone(),
            title: self.title.clone(),
            description: self.description.clone(),
            price: self.price.clone(),
            price_amount_micros: self.price_amount_micros,
            currency_code: self.currency_code.clone(),
            product_type: String::from_str(self.product_type.name()),
            subscription_period: match &self.subscription_period {
                Some(period) => Some(String::from_str(period.name())),
                None => None,
            },
            subscription_period_unit: self.subscription_period_unit,
        }
    }

    pub fn id(&self) -> (id: &String)
        ensures
            id@ == self@.id,
    {
        &self.id
    }

    pub fn title(&self) -> (title: &String)
        ensures
            title@ == self@.title,
    {
        &self.title
    }

    pub fn description(&self) -> (description: &String)
        ensures
            description@ == self@.description,
    {
        &self.description
    }

    pub fn price(&self) -> (price: &String)
        ensures
            price@ == self@.price,
    {
        &self.price
    }

    pub fn price_amount_micros(&self) -> (amount: u64)
        ensures
            amount == self@.price_amount_micros,
    {
        self.price_amount_micros
    }

    pub fn currency_code(&self) -> (code: &String)
        ensures
            code@ == self@.currency_code,
    {
        &self.currency_code
    }

    pub fn product_type(&self) -> (product_type: ProductType)
        ensures
            product_type == self@.product_type,
            product_type == ProductType::Subscription <==> self@.subscription_period is Some,
    {
        proof {
            use_type_invariant(self);
        }
        self.product_type
    }

    pub fn subscription_period(&self) -> (period: Option<SubscriptionPeriod>)
        ensures
            period == self@.subscription_period,
            period is Some <==> self@.product_type == ProductType::Subscription,
    {
        proof {
            use_type_invariant(self);
        }
        self.subscription_period
    }

    pub fn subscription_period_unit(&self) -> (unit: Option<u32>)
        ensures
            unit == self@.subscription_period_unit,
            unit is Some <==> self@.product_type == ProductType::Subscription,
    {
        proof {
            use_type_invariant(self);
        }
        self.subscription_period_unit
    }
}

/// A well-formed product is read back unchanged from its own record.
pub proof fn lemma_product_round_trip(product: ProductView)
    requires
        product.well_formed(),
    ensures
        product.to_record().to_product() is Ok,
        product.to_record().to_product()->Ok_0 == product,
{
    product.product_type.lemma_name_round_trip();
    if let Some(period) = product.subscription_period {
        period.lemma_name_round_trip();
    }
}

/// A record that describes a product describes a well-formed one.
pub proof fn lemma_product_of_record_is_well_formed(record: ProductRecordView)
    ensures
        record.to_product() matches Ok(product) ==> product.well_formed(),
{
}

} // verus!
