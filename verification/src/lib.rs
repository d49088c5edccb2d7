//! The settlement core of a marketplace for digital content.
//!
//! Each operation of the marketplace is a function from the records it
//! touches, its arguments and the time to what it leaves behind: the records
//! as they are afterwards, the transfers that the ledger is to make, and the
//! event that observers are told. An operation that is refused changes
//! nothing. The ledger itself (accounts, signatures, balances, the clock) is
//! the caller's.

pub mod address;
pub mod derivation;
pub mod error;
pub mod event;
pub mod listing;
pub mod sale;
pub mod setup;
pub mod state;
pub mod subscription;
pub mod transfer;

pub use address::Address;
pub use derivation::{
    content_seed_list, find_content_address, find_platform_address, find_purchase_address,
    find_rental_address, find_subscription_address, platform_seed_list, purchase_seed_list,
    rental_seed_list, subscription_seed_list, MAX_SEEDS, MAX_SEED_LEN,
};
pub use error::ErrorCode;
pub use event::{
    ContentCreated, ContentPurchased, ContentRented, ContentResold, ContentUpdated,
    PlatformInitialized, SubscriptionCreated,
};
pub use listing::{create_content, update_content, CreateContent, UpdateContent};
pub use sale::{
    purchase_content, rent_content, resell_content, PurchaseContent, RentContent, ResellContent,
};
pub use setup::{initialize, Initialize};
pub use state::{Content, Platform, Purchase, PurchaseType, Subscription, SUBSCRIPTION_PERIOD};
pub use subscription::{subscribe, Subscribe};
pub use transfer::{subscription_price, transfer_funds, transfer_resale_funds, Transfer};
