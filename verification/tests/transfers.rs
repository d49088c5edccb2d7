use slydr::{
    subscription_price, transfer_funds, transfer_resale_funds, Address, ErrorCode, Transfer,
};

const PAYER: Address = Address { bytes: [7; 32] };
const CREATOR: Address = Address { bytes: [8; 32] };
const SELLER: Address = Address { bytes: [9; 32] };
const PLATFORM: Address = Address { bytes: [10; 32] };

#[test]
fn two_way_split_pays_creator_then_platform() {
    assert_eq!(
        transfer_funds(PAYER, CREATOR, PLATFORM, 10000, 1000),
        Ok(vec![
            Transfer { from: PAYER, to: CREATOR, lamports: 9000 },
            Transfer { from: PAYER, to: PLATFORM, lamports: 1000 },
        ])
    );
    assert_eq!(
        transfer_funds(PAYER, CREATOR, PLATFORM, u64::MAX, 0),
        Ok(vec![
            Transfer { from: PAYER, to: CREATOR, lamports: u64::MAX },
            Transfer { from: PAYER, to: PLATFORM, lamports: 0 },
        ])
    );
}

#[test]
fn two_way_split_needs_more_than_the_fee() {
    for (amount, fee) in [(1000u64, 1000u64), (999, 1000), (0, 0), (0, u64::MAX)] {
        assert_eq!(
            transfer_funds(PAYER, CREATOR, PLATFORM, amount, fee),
            Err(ErrorCode::InsufficientFunds)
        );
    }
    assert_eq!(
        transfer_funds(PAYER, CREATOR, PLATFORM, 1001, 1000),
        Ok(vec![
            Transfer { from: PAYER, to: CREATOR, lamports: 1 },
            Transfer { from: PAYER, to: PLATFORM, lamports: 1000 },
        ])
    );
}

#[test]
fn three_way_split_pays_creator_seller_platform() {
    assert_eq!(
        transfer_resale_funds(PAYER, CREATOR, SELLER, PLATFORM, 5000, 10, 1000),
        Ok(vec![
            Transfer { from: PAYER, to: CREATOR, lamports: 500 },
            Transfer { from: PAYER, to: SELLER, lamports: 3500 },
            Transfer { from: PAYER, to: PLATFORM, lamports: 1000 },
        ])
    );
}

#[test]
fn three_way_split_rounds_the_royalty_down() {
    let cases: [(u64, u8, u64, [u64; 3]); 5] = [
        (199, 1, 0, [1, 198, 0]),
        (99, 1, 0, [0, 99, 0]),
        (1001, 33, 7, [330, 664, 7]),
        (3, 50, 1, [1, 1, 1]),
        (u64::MAX, 50, 5, [9_223_372_036_854_775_807, 9_223_372_036_854_775_803, 5]),
    ];
    for (price, percentage, fee, shares) in cases {
        let transfers =
            transfer_resale_funds(PAYER, CREATOR, SELLER, PLATFORM, price, percentage, fee)
                .unwrap();
        assert_eq!(
            transfers,
            vec![
                Transfer { from: PAYER, to: CREATOR, lamports: shares[0] },
                Transfer { from: PAYER, to: SELLER, lamports: shares[1] },
                Transfer { from: PAYER, to: PLATFORM, lamports: shares[2] },
            ]
        );
        assert_eq!(shares[0] as u128 + shares[1] as u128 + shares[2] as u128, price as u128);
    }
}

#[test]
fn three_way_split_needs_more_than_royalty_and_fee() {
    assert_eq!(
        transfer_resale_funds(PAYER, CREATOR, SELLER, PLATFORM, 1000, 100, 0),
        Err(ErrorCode::InsufficientFunds)
    );
    assert_eq!(
        transfer_resale_funds(PAYER, CREATOR, SELLER, PLATFORM, 1000, 50, 500),
        Err(ErrorCode::InsufficientFunds)
    );
    assert_eq!(
        transfer_resale_funds(PAYER, CREATOR, SELLER, PLATFORM, 1000, 50, 499),
        Ok(vec![
            Transfer { from: PAYER, to: CREATOR, lamports: 500 },
            Transfer { from: PAYER, to: SELLER, lamports: 1 },
            Transfer { from: PAYER, to: PLATFORM, lamports: 499 },
        ])
    );
    assert_eq!(
        transfer_resale_funds(PAYER, CREATOR, SELLER, PLATFORM, 0, 0, 0),
        Err(ErrorCode::InsufficientFunds)
    );
    assert_eq!(
        transfer_resale_funds(PAYER, CREATOR, SELLER, PLATFORM, u64::MAX, 255, u64::MAX),
        Err(ErrorCode::InsufficientFunds)
    );
}

#[test]
fn subscription_prices_follow_the_schedule() {
    assert_eq!(subscription_price(0), None);
    assert_eq!(subscription_price(1), Some(100_000_000));
    assert_eq!(subscription_price(2), Some(200_000_000));
    assert_eq!(subscription_price(3), Some(500_000_000));
    assert_eq!(subscription_price(4), None);
    assert_eq!(subscription_price(u8::MAX), None);
}
