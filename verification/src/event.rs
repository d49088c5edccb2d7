//! What observers are told of each operation.

use crate::address::Address;
use vstd::prelude::*;

verus! {

/// Told to observers when the platform has been set up.
#[derive(Clone, Copy, Debug, PartialEq, Eq)]
pub struct PlatformInitialized {
    pub authority: Address,
    pub platform_fee: u64,
    pub timestamp: i64,
}

/// Told to observers when a content has been listed.
#[derive(Clone, Debug, PartialEq, Eq)]
pub struct ContentCreated {
    pub content_id: String,
    pub creator: Address,
    pub price: u64,
    pub royalty_percentage: u8,
    pub rental_enabled: bool,
    pub subscription_tier: u8,
    pub timestamp: i64,
}

/// Told to observers when a creator has changed a listing.
#[derive(Clone, Debug, PartialEq, Eq)]
pub struct ContentUpdated {
    pub content_id: String,
    pub creator: Address,
    pub price: u64,
    pub active: bool,
    pub rental_enabled: bool,
    pub timestamp: i64,
}

/// Told to observers when a full license has been sold.
#[derive(Clone, Debug, PartialEq, Eq)]
pub struct ContentPurchased {
    pub content_id: String,
    pub buyer: Address,
    pub creator: Address,
    pub price: u64,
    pub timestamp: i64,
}

/// Told to observers when a content has been rented.
#[derive(Clone, Debug, PartialEq, Eq)]
pub struct ContentRented {
    pub content_id: String,
    pub renter: Address,
    pub creator: Address,
    pub price: u64,
    pub expiration: i64,
    pub timestamp: i64,
}

/// Told to observers when a license has been sold on.
#[derive(Clone, Debug, PartialEq, Eq)]
pub struct ContentResold {
    pub content_id: String,
    pub seller: Address,
    pub buyer: Address,
    pub creator: Address,
    pub price: u64,
    pub royalty_amount: u64,
    pub timestamp: i64,
}

/// Told to observers when a subscription has been taken out.
#[derive(Clone, Copy, Debug, PartialEq, Eq)]
pub struct SubscriptionCreated {
    pub subscriber: Address,
    pub tier: u8,
    pub price: u64,
    pub expiration: i64,
    pub timestamp: i64,
}

} // verus!
