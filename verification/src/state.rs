//! The records that the marketplace keeps.

use crate::address::Address;
use vstd::prelude::*;

verus! {

/// The length of a subscription: thirty days, in seconds.
pub const SUBSCRIPTION_PERIOD: i64 = 30 * 24 * 60 * 60;

/// The marketplace itself: one record, created once.
#[derive(Clone, Copy, Debug, PartialEq, Eq)]
pub struct Platform {
    /// Who set the platform up.
    pub authority: Address,
    /// The flat amount that the platform takes from every sale.
    pub platform_fee: u64,
    /// How many contents were ever listed.
    pub total_content_count: u64,
    /// The sum of the prices of all purchases, rentals and resales.
    pub total_sales_volume: u64,
}

impl Platform {
    /// The bytes that a stored platform record takes.
    pub const LEN: usize = 32 + 8 + 8 + 8;

    /// A platform that has been set up charges a fee.
    pub open spec fn wf(&self) -> bool {
        self.platform_fee > 0
    }
}

/// A listing: what is sold, by whom, and on what terms.
#[derive(Clone, Debug, PartialEq, Eq)]
pub struct Content {
    /// The name under which the content's record is found. Never changes.
    pub id: String,
    /// Who listed the content. Never changes.
    pub creator: Address,
    /// Where the payload lies in the outside store.
    pub arweave_id: String,
    /// The price of a full license.
    pub price: u64,
    /// The share of a resale price that goes to the creator, in percent.
    pub royalty_percentage: u8,
    /// How many full licenses were sold.
    pub sales_count: u64,
    /// Whether the content is on sale.
    pub active: bool,
    /// When the content was listed.
    pub created_at: i64,
    /// Whether the content can be rented.
    pub rental_enabled: bool,
    /// The price of a rental.
    pub rental_price: u64,
    /// How long a rental lasts, in seconds.
    pub rental_duration: i64,
    /// The subscription tier that the content belongs to; 0 for none.
    pub subscription_tier: u8,
}

impl Content {
    /// The bytes that a stored content record takes: sixty-four for each of
    /// the two strings, then the fixed-width fields.
    pub const LEN: usize = 64 + 32 + 64 + 8 + 1 + 8 + 1 + 8 + 1 + 8 + 8 + 1;

    /// What holds of every content that was listed, whatever its creator
    /// changed since.
    pub open spec fn wf(&self) -> bool {
        &&& self.id@.len() > 0
        &&& self.arweave_id@.len() > 0
        &&& self.price > 0
        &&& self.royalty_percentage <= 100
    }

    /// Rental terms that can be charged: a content that can be rented has a
    /// price and a duration for it.
    pub open spec fn rental_wf(&self) -> bool {
        self.rental_enabled ==> self.rental_price > 0 && self.rental_duration > 0
    }
}

/// How a license was first acquired.
#[derive(Clone, Copy, Debug, PartialEq, Eq, Structural)]
pub enum PurchaseType {
    FullPurchase,
    Rental,
}

/// A license: the record of a purchase, a rental or a resale.
#[derive(Clone, Copy, Debug, PartialEq, Eq)]
pub struct Purchase {
    /// Who holds the license.
    pub buyer: Address,
    /// The address of the content's record.
    pub content: Address,
    /// What was paid.
    pub price: u64,
    /// When it was paid.
    pub timestamp: i64,
    /// Whether the holder may sell the license on.
    pub resale_rights: bool,
    pub purchase_type: PurchaseType,
    /// When the license ends; `None` for one that does not end.
    pub expiration: Option<i64>,
}

impl Purchase {
    /// The bytes that a stored license takes; nine of them for the expiration,
    /// absent or present.
    pub const LEN: usize = 32 + 32 + 8 + 8 + 1 + 1 + 9;

    /// A full purchase can be resold and does not end; a rental cannot be
    /// resold and ends.
    pub open spec fn wf(&self) -> bool {
        match self.purchase_type {
            PurchaseType::FullPurchase => self.resale_rights && self.expiration is None,
            PurchaseType::Rental => !self.resale_rights && self.expiration is Some,
        }
    }
}

/// A subscriber's subscription to a tier.
#[derive(Clone, Copy, Debug, PartialEq, Eq)]
pub struct Subscription {
    pub subscriber: Address,
    /// The tier: 1, 2 or 3.
    pub tier: u8,
    pub start_time: i64,
    pub expiration_time: i64,
    pub active: bool,
}

impl Subscription {
    /// The bytes that a stored subscription takes.
    pub const LEN: usize = 32 + 1 + 8 + 8 + 1;

    /// A subscription is to one of the three tiers and lasts one period.
    pub open spec fn wf(&self) -> bool {
        &&& 1 <= self.tier <= 3
        &&& self.expiration_time == self.start_time + SUBSCRIPTION_PERIOD
    }
}

} // verus!
