use slydr::{Address, Content, ErrorCode, Platform, Purchase, Subscription};

#[test]
fn records_reserve_their_bytes() {
    assert_eq!(Platform::LEN, 56);
    assert_eq!(Content::LEN, 204);
    assert_eq!(Purchase::LEN, 91);
    assert_eq!(Subscription::LEN, 50);
}

#[test]
fn addresses_compare_by_their_bytes() {
    let one = Address { bytes: [5; 32] };
    let mut other = Address { bytes: [5; 32] };
    assert!(one == other);
    other.bytes[31] = 6;
    assert!(one != other);
    other.bytes[31] = 5;
    other.bytes[0] = 4;
    assert!(one != other);
}

#[test]
fn every_refusal_has_its_sentence() {
    let sentences = [
        (ErrorCode::InvalidRoyaltyPercentage, "Royalty percentage must be between 0 and 100"),
        (ErrorCode::InsufficientFunds, "Insufficient funds to complete the purchase"),
        (ErrorCode::NotAuthorized, "Not authorized to perform this action"),
        (ErrorCode::ContentNotActive, "Content is not active"),
        (ErrorCode::NoResaleRights, "No resale rights for this content"),
        (ErrorCode::InvalidContentId, "Content ID cannot be empty"),
        (ErrorCode::InvalidArweaveId, "Arweave ID cannot be empty"),
        (ErrorCode::InvalidPrice, "Price must be greater than 0"),
        (ErrorCode::InvalidFeeAmount, "Platform fee must be greater than 0"),
        (ErrorCode::RentalNotEnabled, "Rental is not enabled for this content"),
        (ErrorCode::InvalidRentalPrice, "Rental price must be greater than 0"),
        (ErrorCode::InvalidRentalDuration, "Rental duration must be greater than 0"),
        (ErrorCode::PurchaseExpired, "Purchase has expired"),
        (ErrorCode::InvalidSubscriptionTier, "Invalid subscription tier"),
        (ErrorCode::AccountAlreadyInUse, "Account is already in use"),
    ];
    for (code, sentence) in sentences {
        assert_eq!(code.message(), sentence);
    }
}
