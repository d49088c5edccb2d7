//! The reasons for which operations are refused.

use vstd::prelude::*;

verus! {

/// The reasons for which an operation is refused. An operation that is refused
/// changes nothing.
#[derive(Clone, Copy, Debug, PartialEq, Eq, Structural)]
pub enum ErrorCode {
    InvalidRoyaltyPercentage,
    InsufficientFunds,
    NotAuthorized,
    ContentNotActive,
    NoResaleRights,
    InvalidContentId,
    InvalidArweaveId,
    InvalidPrice,
    InvalidFeeAmount,
    RentalNotEnabled,
    InvalidRentalPrice,
    InvalidRentalDuration,
    PurchaseExpired,
    InvalidSubscriptionTier,
    /// A record was to be created where one exists already.
    AccountAlreadyInUse,
}

impl ErrorCode {
    /// The sentence that tells a caller what went wrong.
    pub open spec fn spec_message(self) -> Seq<char> {
        match self {
            ErrorCode::InvalidRoyaltyPercentage => "Royalty percentage must be between 0 and 100"@,
            ErrorCode::InsufficientFunds => "Insufficient funds to complete the purchase"@,
            ErrorCode::NotAuthorized => "Not authorized to perform this action"@,
            ErrorCode::ContentNotActive => "Content is not active"@,
            ErrorCode::NoResaleRights => "No resale rights for this content"@,
            ErrorCode::InvalidContentId => "Content ID cannot be empty"@,
            ErrorCode::InvalidArweaveId => "Arweave ID cannot be empty"@,
            ErrorCode::InvalidPrice => "Price must be greater than 0"@,
            ErrorCode::InvalidFeeAmount => "Platform fee must be greater than 0"@,
            ErrorCode::RentalNotEnabled => "Rental is not enabled for this content"@,
            ErrorCode::InvalidRentalPrice => "Rental price must be greater than 0"@,
            ErrorCode::InvalidRentalDuration => "Rental duration must be greater than 0"@,
            ErrorCode::PurchaseExpired => "Purchase has expired"@,
            ErrorCode::InvalidSubscriptionTier => "Invalid subscription tier"@,
            ErrorCode::AccountAlreadyInUse => "Account is already in use"@,
        }
    }

    /// The sentence that tells a caller what went wrong.
    pub fn message(&self) -> (text: String)
        ensures
            text@ == self.spec_message(),
    {
        let text: &str = match self {
            ErrorCode::InvalidRoyaltyPercentage => "Royalty percentage must be between 0 and 100",
            ErrorCode::InsufficientFunds => "Insufficient funds to complete the purchase",
            ErrorCode::NotAuthorized => "Not authorized to perform this action",
            ErrorCode::ContentNotActive => "Content is not active",
            ErrorCode::NoResaleRights => "No resale rights for this content",
            ErrorCode::InvalidContentId => "Content ID cannot be empty",
            ErrorCode::InvalidArweaveId => "Arweave ID cannot be empty",
            ErrorCode::InvalidPrice => "Price must be greater than 0",
            ErrorCode::InvalidFeeAmount => "Platform fee must be greater than 0",
            ErrorCode::RentalNotEnabled => "Rental is not enabled for this content",
            ErrorCode::InvalidRentalPrice => "Rental price must be greater than 0",
            ErrorCode::InvalidRentalDuration => "Rental duration must be greater than 0",
            ErrorCode::PurchaseExpired => "Purchase has expired",
            ErrorCode::InvalidSubscriptionTier => "Invalid subscription tier",
            ErrorCode::AccountAlreadyInUse => "Account is already in use",
        };
        text.to_owned()
    }
}

} // verus!
