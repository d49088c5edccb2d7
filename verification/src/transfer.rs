//! How a payment is split between creator, seller and platform.

use crate::address::Address;
use crate::error::ErrorCode;
use vstd::prelude::*;

verus! {

/// A movement of currency that the ledger is asked to make: `lamports` units
/// out of `from` into `to`.
#[derive(Clone, Copy, Debug, PartialEq, Eq)]
pub struct Transfer {
    pub from: Address,
    pub to: Address,
    pub lamports: u64,
}

/// The transfers of a sale and of a rental: what is left of `amount` after the
/// platform's fee to the creator, then the fee to the platform.
pub open spec fn two_way_split(
    from: Address,
    to_creator: Address,
    to_platform: Address,
    amount: u64,
    platform_fee: u64,
) -> Seq<Transfer>
    recommends
        amount > platform_fee,
{
    seq![
        Transfer { from, to: to_creator, lamports: (amount - platform_fee) as u64 },
        Transfer { from, to: to_platform, lamports: platform_fee },
    ]
}

/// The creator's share of a resale price: the percentage, rounded down.
pub open spec fn royalty_amount(price: u64, royalty_percentage: u8) -> int {
    (price as int * royalty_percentage as int) / 100
}

/// The transfers of a resale: the royalty to the creator, what is left of the
/// price after royalty and fee to the seller, then the fee to the platform.
pub open spec fn three_way_split(
    from: Address,
    to_creator: Address,
    to_seller: Address,
    to_platform: Address,
    price: u64,
    royalty_percentage: u8,
    platform_fee: u64,
) -> Seq<Transfer>
    recommends
        price > royalty_amount(price, royalty_percentage) + platform_fee,
{
    let royalty = royalty_amount(price, royalty_percentage);
    seq![
        Transfer { from, to: to_creator, lamports: royalty as u64 },
        Transfer { from, to: to_seller, lamports: (price - royalty - platform_fee) as u64 },
        Transfer { from, to: to_platform, lamports: platform_fee },
    ]
}

/// The transfer of a subscription: the whole price to the platform.
pub open spec fn fixed_price_transfer(
    from: Address,
    to_platform: Address,
    price: u64,
) -> Seq<Transfer> {
    seq![Transfer { from, to: to_platform, lamports: price }]
}

/// What a list of transfers moves in all.
pub open spec fn total_lamports(transfers: Seq<Transfer>) -> int
    decreases transfers.len(),
{
    if transfers.len() == 0 {
        0
    } else {
        total_lamports(transfers.drop_last()) + transfers.last().lamports
    }
}

/// The price of a subscription to `tier`, which is 1, 2 or 3.
pub open spec fn tier_price(tier: u8) -> Option<u64> {
    if tier == 1 {
        Some(100_000_000u64)
    } else if tier == 2 {
        Some(200_000_000u64)
    } else if tier == 3 {
        Some(500_000_000u64)
    } else {
        None
    }
}

/// Splits `amount` between the creator and the platform. The amount must be
/// more than the fee: where it is not, nothing is to be transferred and the
/// answer is `InsufficientFunds`.
pub fn transfer_funds(
    from: Address,
    to_creator: Address,
    to_platform: Address,
    amount: u64,
    platform_fee: u64,
) -> (result: Result<Vec<Transfer>, ErrorCode>)
    ensures
        match result {
            Ok(transfers) => {
                &&& amount > platform_fee
                &&& transfers@ == two_way_split(from, to_creator, to_platform, amount, platform_fee)
                &&& transfers@[0].lamports == amount - platform_fee
                &&& transfers@[1].lamports == platform_fee
                &&& total_lamports(transfers@) == amount
            },
            Err(code) => amount <= platform_fee && code == ErrorCode::InsufficientFunds,
        },
{
    if amount <= platform_fee {
        return Err(ErrorCode::InsufficientFunds);
    }
    let creator_amount: u64 = amount - platform_fee;
    let mut transfers: Vec<Transfer> = Vec::new();
    transfers.push(Transfer { from, to: to_creator, lamports: creator_amount });
    transfers.push(Transfer { from, to: to_platform, lamports: platform_fee });
    proof {
        assert(transfers@ =~= two_way_split(from, to_creator, to_platform, amount, platform_fee));
        lemma_two_way_split_conserves(from, to_creator, to_platform, amount, platform_fee);
    }
    Ok(transfers)
}

/// Splits a resale price between the creator, the seller and the platform.
/// The price must be more than royalty and fee together: where it is not,
/// nothing is to be transferred and the answer is `InsufficientFunds`.
pub fn transfer_resale_funds(
    from: Address,
    to_creator: Address,
    to_seller: Address,
    to_platform: Address,
    price: u64,
    royalty_percentage: u8,
    platform_fee: u64,
) -> (result: Result<Vec<Transfer>, ErrorCode>)
    ensures
        match result {
            Ok(transfers) => {
                &&& price > royalty_amount(price, royalty_percentage) + platform_fee
                &&& transfers@ == three_way_split(
                    from,
                    to_creator,
                    to_seller,
                    to_platform,
                    price,
                    royalty_percentage,
                    platform_fee,
                )
                &&& transfers@[0].lamports == royalty_amount(price, royalty_percentage)
                &&& transfers@[1].lamports == price - transfers@[0].lamports - platform_fee
                &&& transfers@[2].lamports == platform_fee
                &&& total_lamports(transfers@) == price
            },
            Err(code) => {
                &&& price <= royalty_amount(price, royalty_percentage) + platform_fee
                &&& code == ErrorCode::InsufficientFunds
            },
        },
{
    assert(price as u128 * royalty_percentage as u128 <= 0xffff_ffff_ffff_ffff * 255)
        by (nonlinear_arith);
    let royalty: u128 = price as u128 * royalty_percentage as u128 / 100;
    if price as u128 <= royalty + platform_fee as u128 {
        return Err(ErrorCode::InsufficientFunds);
    }
    let royalty_amount: u64 = royalty as u64;
    let seller_amount: u64 = price - royalty_amount - platform_fee;
    let mut transfers: Vec<Transfer> = Vec::new();
    transfers.push(Transfer { from, to: to_creator, lamports: royalty_amount });
    transfers.push(Transfer { from, to: to_seller, lamports: seller_amount });
    transfers.push(Transfer { from, to: to_platform, lamports: platform_fee });
    proof {
        assert(transfers@ =~= three_way_split(
            from,
            to_creator,
            to_seller,
            to_platform,
            price,
            royalty_percentage,
            platform_fee,
        ));
        lemma_three_way_split_conserves(
            from,
            to_creator,
            to_seller,
            to_platform,
            price,
            royalty_percentage,
            platform_fee,
        );
    }
    Ok(transfers)
}

/// A sale moves its price, no more and no less: what the creator and the
/// platform get adds up to what the payer gives.
pub proof fn lemma_two_way_split_conserves(
    from: Address,
    to_creator: Address,
    to_platform: Address,
    amount: u64,
    platform_fee: u64,
)
    requires
        amount > platform_fee,
    ensures
        total_lamports(two_way_split(from, to_creator, to_platform, amount, platform_fee))
            == amount,
{
    let transfers = two_way_split(from, to_creator, to_platform, amount, platform_fee);
    let first = transfers.drop_last();
    assert(transfers.len() == 2 && first.len() == 1 && first.drop_last().len() == 0);
    assert(total_lamports(first.drop_last()) == 0);
    assert(total_lamports(first) == transfers[0].lamports);
}

/// The royalty is a share of the price: with a percentage of at most a
/// hundred it is not negative and not more than the price.
pub proof fn lemma_royalty_bounds(price: u64, royalty_percentage: u8)
    requires
        royalty_percentage <= 100,
    ensures
        0 <= royalty_amount(price, royalty_percentage) <= price,
{
    assert(0 <= price as int * royalty_percentage as int <= price as int * 100)
        by (nonlinear_arith)
        requires
            0 <= price,
            0 <= royalty_percentage <= 100,
    ;
}

/// A resale moves its price, no more and no less: royalty, the seller's
/// share and the fee add up to what the buyer gives.
pub proof fn lemma_three_way_split_conserves(
    from: Address,
    to_creator: Address,
    to_seller: Address,
    to_platform: Address,
    price: u64,
    royalty_percentage: u8,
    platform_fee: u64,
)
    requires
        price > royalty_amount(price, royalty_percentage) + platform_fee,
    ensures
        total_lamports(
            three_way_split(
                from,
                to_creator,
                to_seller,
                to_platform,
                price,
                royalty_percentage,
                platform_fee,
            ),
        ) == price,
{
    let transfers = three_way_split(
        from,
        to_creator,
        to_seller,
        to_platform,
        price,
        royalty_percentage,
        platform_fee,
    );
    assert(0 <= price as int * royalty_percentage as int) by (nonlinear_arith)
        requires
            0 <= price,
            0 <= royalty_percentage,
    ;
    let two = transfers.drop_last();
    let first = two.drop_last();
    assert(transfers.len() == 3 && two.len() == 2 && first.len() == 1);
    assert(first.drop_last().len() == 0);
    assert(total_lamports(first.drop_last()) == 0);
    assert(total_lamports(first) == transfers[0].lamports);
    assert(total_lamports(two) == transfers[0].lamports + transfers[1].lamports);
}

/// The price of a subscription to `tier`; `None` for a tier that is not on
/// offer.
pub fn subscription_price(tier: u8) -> (price: Option<u64>)
    ensures
        price == tier_price(tier),
{
    if tier == 1 {
        Some(100_000_000)
    } else if tier == 2 {
        Some(200_000_000)
    } else if tier == 3 {
        Some(500_000_000)
    } else {
        None
    }
}

} // verus!
