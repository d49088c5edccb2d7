//! Selling, renting out and reselling licenses.

use crate::address::Address;
use crate::error::ErrorCode;
use crate::event::{ContentPurchased, ContentRented, ContentResold};
use crate::state::{Content, Platform, Purchase, PurchaseType};
use crate::transfer::{
    royalty_amount, three_way_split, total_lamports, transfer_funds, transfer_resale_funds,
    two_way_split, Transfer,
};
use vstd::prelude::*;

verus! {

/// The accounts of `purchase_content`.
#[derive(Clone, Debug, PartialEq, Eq)]
pub struct PurchaseContent {
    /// The content's record.
    pub content: Content,
    /// The address of the content's record.
    pub content_key: Address,
    /// Who signs, and pays.
    pub buyer: Address,
    /// Who is paid: the content's creator.
    pub creator: Address,
    /// The platform's record.
    pub platform: Platform,
    /// The address of the platform's record, which collects the fee.
    pub platform_key: Address,
    /// The record at the address of the buyer's license on the content
    /// (`find_purchase_address`): `None` as long as the buyer has none.
    pub purchase: Option<Purchase>,
}

/// The accounts of `rent_content`.
#[derive(Clone, Debug, PartialEq, Eq)]
pub struct RentContent {
    /// The content's record.
    pub content: Content,
    /// The address of the content's record.
    pub content_key: Address,
    /// Who signs, and pays.
    pub renter: Address,
    /// Who is paid: the content's creator.
    pub creator: Address,
    /// The platform's record.
    pub platform: Platform,
    /// The address of the platform's record, which collects the fee.
    pub platform_key: Address,
    /// The record at the address of the renter's rental of the content
    /// (`find_rental_address`): `None` as long as the renter has none.
    pub rental: Option<Purchase>,
}

/// The accounts of `resell_content`.
#[derive(Clone, Debug, PartialEq, Eq)]
pub struct ResellContent {
    /// The content's record.
    pub content: Content,
    /// The address of the content's record.
    pub content_key: Address,
    /// Who signs, and sells a license.
    pub seller: Address,
    /// Who pays, and gets the new license.
    pub buyer: Address,
    /// Who is paid the royalty: the content's creator.
    pub creator: Address,
    /// The platform's record.
    pub platform: Platform,
    /// The address of the platform's record, which collects the fee.
    pub platform_key: Address,
    /// The seller's license, which stays as it is.
    pub seller_purchase: Purchase,
    /// The record at the address of the buyer's license on the content
    /// (`find_purchase_address`): `None` as long as the buyer has none.
    pub buyer_purchase: Option<Purchase>,
}

/// Why `purchase_content` refuses, if it does.
pub open spec fn purchase_rejection(ctx: PurchaseContent) -> Option<ErrorCode> {
    if ctx.creator != ctx.content.creator {
        Some(ErrorCode::NotAuthorized)
    } else if ctx.purchase is Some {
        Some(ErrorCode::AccountAlreadyInUse)
    } else if !ctx.content.active {
        Some(ErrorCode::ContentNotActive)
    } else if ctx.content.price <= ctx.platform.platform_fee {
        Some(ErrorCode::InsufficientFunds)
    } else {
        None
    }
}

/// The license that a purchase at the time `now` issues.
pub open spec fn purchased_license(ctx: PurchaseContent, now: i64) -> Purchase {
    Purchase {
        buyer: ctx.buyer,
        content: ctx.content_key,
        price: ctx.content.price,
        timestamp: now,
        resale_rights: true,
        purchase_type: PurchaseType::FullPurchase,
        expiration: None,
    }
}

/// The accounts after a purchase at the time `now`: one more sale of the
/// content, its price added to the platform's volume, and the license issued.
pub open spec fn purchased(ctx: PurchaseContent, now: i64) -> PurchaseContent {
    PurchaseContent {
        content: Content { sales_count: (ctx.content.sales_count + 1) as u64, ..ctx.content },
        platform: Platform {
            total_sales_volume: (ctx.platform.total_sales_volume + ctx.content.price) as u64,
            ..ctx.platform
        },
        purchase: Some(purchased_license(ctx, now)),
        ..ctx
    }
}

/// Sells a full license on a content: the buyer pays the price, of which the
/// platform's fee goes to the platform and the rest to the creator. The
/// license can be resold and does not end.
///
/// Refused are, in this order: a creator account that is not the content's
/// creator (`NotAuthorized`), a buyer who has a license on the content already
/// (`AccountAlreadyInUse`), a content that is not on sale (`ContentNotActive`)
/// and a price that is not more than the fee (`InsufficientFunds`).
pub fn purchase_content(
    ctx: &mut PurchaseContent,
    now: i64,
) -> (result: Result<(Vec<Transfer>, ContentPurchased), ErrorCode>)
    requires
        purchase_rejection(*old(ctx)) is None ==> old(ctx).content.sales_count < u64::MAX,
        purchase_rejection(*old(ctx)) is None ==> old(ctx).platform.total_sales_volume + old(
            ctx,
        ).content.price <= u64::MAX,
    ensures
        match result {
            Ok((transfers, event)) => {
                &&& purchase_rejection(*old(ctx)) is None
                &&& *final(ctx) == purchased(*old(ctx), now)
                &&& transfers@ == two_way_split(
                    old(ctx).buyer,
                    old(ctx).creator,
                    old(ctx).platform_key,
                    old(ctx).content.price,
                    old(ctx).platform.platform_fee,
                )
                &&& transfers@[0].lamports == old(ctx).content.price
                    - old(ctx).platform.platform_fee
                &&& transfers@[1].lamports == old(ctx).platform.platform_fee
                &&& total_lamports(transfers@) == old(ctx).content.price
                &&& final(ctx).platform.total_sales_volume == old(ctx).platform.total_sales_volume
                    + old(ctx).content.price
                &&& final(ctx).content.sales_count == old(ctx).content.sales_count + 1
                &&& final(ctx).purchase->0.resale_rights
                &&& final(ctx).purchase->0.expiration is None
                &&& final(ctx).purchase->0.wf()
                &&& (old(ctx).content.wf() ==> final(ctx).content.wf())
                &&& (old(ctx).platform.wf() ==> final(ctx).platform.wf())
                &&& event == (ContentPurchased {
                    content_id: old(ctx).content.id,
                    buyer: old(ctx).buyer,
                    creator: old(ctx).creator,
                    price: old(ctx).content.price,
                    timestamp: now,
                })
            },
            Err(code) => purchase_rejection(*old(ctx)) == Some(code) && *final(ctx) == *old(ctx),
        },
{
    if ctx.creator != ctx.content.creator {
        return Err(ErrorCode::NotAuthorized);
    }
    if ctx.purchase.is_some() {
        return Err(ErrorCode::AccountAlreadyInUse);
    }
    if !ctx.content.active {
        return Err(ErrorCode::ContentNotActive);
    }
    let transfers = match transfer_funds(
        ctx.buyer,
        ctx.creator,
        ctx.platform_key,
        ctx.content.price,
        ctx.platform.platform_fee,
    ) {
        Ok(transfers) => transfers,
        Err(code) => {
            return Err(code);
        },
    };
    ctx.content.sales_count = ctx.content.sales_count + 1;
    ctx.platform.total_sales_volume = ctx.platform.total_sales_volume + ctx.content.price;
    ctx.purchase = Some(
        Purchase {
            buyer: ctx.buyer,
            content: ctx.content_key,
            price: ctx.content.price,
            timestamp: now,
            resale_rights: true,
            purchase_type: PurchaseType::FullPurchase,
            expiration: None,
        },
    );
    let event = ContentPurchased {
        content_id: ctx.content.id.clone(),
        buyer: ctx.buyer,
        creator: ctx.creator,
        price: ctx.content.price,
        timestamp: now,
    };
    Ok((transfers, event))
}

/// A buyer buys a content once: on the accounts that `purchase_content`
/// leaves, `purchase_content` is refused.
pub proof fn lemma_purchase_once(ctx: PurchaseContent, now: i64)
    requires
        purchase_rejection(ctx) is None,
    ensures
        purchase_rejection(purchased(ctx, now)) == Some(ErrorCode::AccountAlreadyInUse),
{
}

/// Why `rent_content` refuses, if it does.
pub open spec fn rent_rejection(ctx: RentContent) -> Option<ErrorCode> {
    if ctx.creator != ctx.content.creator {
        Some(ErrorCode::NotAuthorized)
    } else if ctx.rental is Some {
        Some(ErrorCode::AccountAlreadyInUse)
    } else if !ctx.content.active {
        Some(ErrorCode::ContentNotActive)
    } else if !ctx.content.rental_enabled {
        Some(ErrorCode::RentalNotEnabled)
    } else if ctx.content.rental_price <= ctx.platform.platform_fee {
        Some(ErrorCode::InsufficientFunds)
    } else {
        None
    }
}

/// The license that a rental at the time `now` issues.
pub open spec fn rented_license(ctx: RentContent, now: i64) -> Purchase {
    Purchase {
        buyer: ctx.renter,
        content: ctx.content_key,
        price: ctx.content.rental_price,
        timestamp: now,
        resale_rights: false,
        purchase_type: PurchaseType::Rental,
        expiration: Some((now + ctx.content.rental_duration) as i64),
    }
}

/// The accounts after a rental at the time `now`: the rental price added to
/// the platform's volume, and the license issued. A rental is no sale: the
/// content's record stays as it is.
pub open spec fn rented(ctx: RentContent, now: i64) -> RentContent {
    RentContent {
        platform: Platform {
            total_sales_volume: (ctx.platform.total_sales_volume + ctx.content.rental_price) as u64,
            ..ctx.platform
        },
        rental: Some(rented_license(ctx, now)),
        ..ctx
    }
}

/// Rents a content out: the renter pays the rental price, of which the
/// platform's fee goes to the platform and the rest to the creator. The
/// license cannot be resold, and ends one rental duration after `now`.
///
/// Refused are, in this order: a creator account that is not the content's
/// creator (`NotAuthorized`), a renter who has a rental of the content already
/// (`AccountAlreadyInUse`), a content that is not on sale
/// (`ContentNotActive`), one that cannot be rented (`RentalNotEnabled`) and a
/// rental price that is not more than the fee (`InsufficientFunds`).
pub fn rent_content(
    ctx: &mut RentContent,
    now: i64,
) -> (result: Result<(Vec<Transfer>, ContentRented), ErrorCode>)
    requires
        rent_rejection(*old(ctx)) is None ==> old(ctx).platform.total_sales_volume + old(
            ctx,
        ).content.rental_price <= u64::MAX,
        rent_rejection(*old(ctx)) is None ==> i64::MIN <= now + old(ctx).content.rental_duration
            <= i64::MAX,
    ensures
        match result {
            Ok((transfers, event)) => {
                &&& rent_rejection(*old(ctx)) is None
                &&& *final(ctx) == rented(*old(ctx), now)
                &&& transfers@ == two_way_split(
                    old(ctx).renter,
                    old(ctx).creator,
                    old(ctx).platform_key,
                    old(ctx).content.rental_price,
                    old(ctx).platform.platform_fee,
                )
                &&& total_lamports(transfers@) == old(ctx).content.rental_price
                &&& final(ctx).platform.total_sales_volume == old(ctx).platform.total_sales_volume
                    + old(ctx).content.rental_price
                &&& final(ctx).rental->0.timestamp == now
                &&& final(ctx).rental->0.expiration is Some
                &&& final(ctx).rental->0.expiration->0 == final(ctx).rental->0.timestamp + old(
                    ctx,
                ).content.rental_duration
                &&& (old(ctx).content.rental_wf() ==> final(ctx).rental->0.expiration->0 > now)
                &&& !final(ctx).rental->0.resale_rights
                &&& final(ctx).rental->0.wf()
                &&& final(ctx).content == old(ctx).content
                &&& (old(ctx).platform.wf() ==> final(ctx).platform.wf())
                &&& event == (ContentRented {
                    content_id: old(ctx).content.id,
                    renter: old(ctx).renter,
                    creator: old(ctx).creator,
                    price: old(ctx).content.rental_price,
                    expiration: (now + old(ctx).content.rental_duration) as i64,
                    timestamp: now,
                })
            },
            Err(code) => rent_rejection(*old(ctx)) == Some(code) && *final(ctx) == *old(ctx),
        },
{
    if ctx.creator != ctx.content.creator {
        return Err(ErrorCode::NotAuthorized);
    }
    if ctx.rental.is_some() {
        return Err(ErrorCode::AccountAlreadyInUse);
    }
    if !ctx.content.active {
        return Err(ErrorCode::ContentNotActive);
    }
    if !ctx.content.rental_enabled {
        return Err(ErrorCode::RentalNotEnabled);
    }
    let transfers = match transfer_funds(
        ctx.renter,
        ctx.creator,
        ctx.platform_key,
        ctx.content.rental_price,
        ctx.platform.platform_fee,
    ) {
        Ok(transfers) => transfers,
        Err(code) => {
            return Err(code);
        },
    };
    ctx.platform.total_sales_volume = ctx.platform.total_sales_volume + ctx.content.rental_price;
    let expiration_time: i64 = now + ctx.content.rental_duration;
    ctx.rental = Some(
        Purchase {
            buyer: ctx.renter,
            content: ctx.content_key,
            price: ctx.content.rental_price,
            timestamp: now,
            resale_rights: false,
            purchase_type: PurchaseType::Rental,
            expiration: Some(expiration_time),
        },
    );
    let event = ContentRented {
        content_id: ctx.content.id.clone(),
        renter: ctx.renter,
        creator: ctx.creator,
        price: ctx.content.rental_price,
        expiration: expiration_time,
        timestamp: now,
    };
    Ok((transfers, event))
}

/// A renter rents a content once: on the accounts that `rent_content` leaves,
/// `rent_content` is refused.
pub proof fn lemma_rent_once(ctx: RentContent, now: i64)
    requires
        rent_rejection(ctx) is None,
    ensures
        rent_rejection(rented(ctx, now)) == Some(ErrorCode::AccountAlreadyInUse),
{
}

/// Whether the accounts of a resale belong together: the creator account is
/// the content's creator, and the seller's license is the seller's and is a
/// license on this content.
pub open spec fn resale_authorized(ctx: ResellContent) -> bool {
    &&& ctx.creator == ctx.content.creator
    &&& ctx.seller_purchase.buyer == ctx.seller
    &&& ctx.seller_purchase.content == ctx.content_key
}

/// Whether the buyer of a resale has a license on the content already. A
/// seller who sells to themself has: their own.
pub open spec fn resale_slot_taken(ctx: ResellContent) -> bool {
    ctx.buyer == ctx.seller || ctx.buyer_purchase is Some
}

/// Whether a resale at `price` gets as far as the seller's license: the
/// accounts belong together, the buyer has no license yet, the content is on
/// sale and the price is not zero.
pub open spec fn resale_admitted(ctx: ResellContent, price: u64) -> bool {
    &&& resale_authorized(ctx)
    &&& !resale_slot_taken(ctx)
    &&& ctx.content.active
    &&& price > 0
}

/// Whether the seller's license has ended at the time `now`. A license
/// without an expiration never has.
pub open spec fn license_expired(license: Purchase, now: i64) -> bool {
    license.expiration is Some && license.expiration->0 <= now
}

/// Why `resell_content` refuses, if it does: the first of these that holds.
pub open spec fn resell_rejection(ctx: ResellContent, price: u64, now: i64) -> Option<ErrorCode> {
    if !resale_authorized(ctx) {
        Some(ErrorCode::NotAuthorized)
    } else if resale_slot_taken(ctx) {
        Some(ErrorCode::AccountAlreadyInUse)
    } else if !ctx.content.active {
        Some(ErrorCode::ContentNotActive)
    } else if price == 0 {
        Some(ErrorCode::InvalidPrice)
    } else if !ctx.seller_purchase.resale_rights {
        Some(ErrorCode::NoResaleRights)
    } else if license_expired(ctx.seller_purchase, now) {
        Some(ErrorCode::PurchaseExpired)
    } else if price <= royalty_amount(price, ctx.content.royalty_percentage)
        + ctx.platform.platform_fee {
        Some(ErrorCode::InsufficientFunds)
    } else {
        None
    }
}

/// The license that a resale at `price` and at the time `now` issues to the
/// buyer: rights, kind and expiration are the seller's.
pub open spec fn resold_license(ctx: ResellContent, price: u64, now: i64) -> Purchase {
    Purchase {
        buyer: ctx.buyer,
        content: ctx.content_key,
        price,
        timestamp: now,
        resale_rights: ctx.seller_purchase.resale_rights,
        purchase_type: ctx.seller_purchase.purchase_type,
        expiration: ctx.seller_purchase.expiration,
    }
}

/// The accounts after a resale: the price added to the platform's volume, and
/// the buyer's license issued. The content's record and the seller's license
/// stay as they are.
pub open spec fn resold(ctx: ResellContent, price: u64, now: i64) -> ResellContent {
    ResellContent {
        platform: Platform {
            total_sales_volume: (ctx.platform.total_sales_volume + price) as u64,
            ..ctx.platform
        },
        buyer_purchase: Some(resold_license(ctx, price, now)),
        ..ctx
    }
}

/// Sells a license on: the buyer pays `price`, of which the creator gets the
/// royalty, the platform its fee and the seller the rest. The buyer gets a
/// license of their own, with the rights, the kind and the expiration of the
/// seller's.
///
/// Refused are, in this order: accounts that do not belong together
/// (`NotAuthorized`), a buyer who has a license on the content already, as a
/// seller who sells to themself has (`AccountAlreadyInUse`), a content that is
/// not on sale (`ContentNotActive`), a price of zero (`InvalidPrice`), a
/// license without resale rights (`NoResaleRights`), a license whose
/// expiration is not after `now` (`PurchaseExpired`), and a price that is not
/// more than royalty and fee together (`InsufficientFunds`).
pub fn resell_content(
    ctx: &mut ResellContent,
    price: u64,
    now: i64,
) -> (result: Result<(Vec<Transfer>, ContentResold), ErrorCode>)
    requires
        resell_rejection(*old(ctx), price, now) is None ==> old(ctx).platform.total_sales_volume
            + price <= u64::MAX,
    ensures
        match result {
            Ok((transfers, event)) => {
                &&& resell_rejection(*old(ctx), price, now) is None
                &&& *final(ctx) == resold(*old(ctx), price, now)
                &&& transfers@ == three_way_split(
                    old(ctx).buyer,
                    old(ctx).creator,
                    old(ctx).seller,
                    old(ctx).platform_key,
                    price,
                    old(ctx).content.royalty_percentage,
                    old(ctx).platform.platform_fee,
                )
                &&& transfers@[0].lamports == royalty_amount(
                    price,
                    old(ctx).content.royalty_percentage,
                )
                &&& transfers@[1].lamports == price - transfers@[0].lamports
                    - old(ctx).platform.platform_fee
                &&& transfers@[2].lamports == old(ctx).platform.platform_fee
                &&& total_lamports(transfers@) == price
                &&& final(ctx).platform.total_sales_volume == old(ctx).platform.total_sales_volume
                    + price
                &&& final(ctx).seller_purchase == old(ctx).seller_purchase
                &&& final(ctx).content == old(ctx).content
                &&& (old(ctx).seller_purchase.wf() ==> final(ctx).buyer_purchase->0.wf())
                &&& (old(ctx).platform.wf() ==> final(ctx).platform.wf())
                &&& event == (ContentResold {
                    content_id: old(ctx).content.id,
                    seller: old(ctx).seller,
                    buyer: old(ctx).buyer,
                    creator: old(ctx).creator,
                    price,
                    royalty_amount: transfers@[0].lamports,
                    timestamp: now,
                })
            },
            Err(code) => {
                &&& resell_rejection(*old(ctx), price, now) == Some(code)
                &&& *final(ctx) == *old(ctx)
            },
        },
        !old(ctx).seller_purchase.resale_rights ==> result is Err,
        license_expired(old(ctx).seller_purchase, now) ==> result is Err,
        resale_admitted(*old(ctx), price) && !old(ctx).seller_purchase.resale_rights ==> (result
            matches Err(code) && code == ErrorCode::NoResaleRights),
        resale_admitted(*old(ctx), price) && old(ctx).seller_purchase.resale_rights
            && license_expired(old(ctx).seller_purchase, now) ==> (result matches Err(code) && code
            == ErrorCode::PurchaseExpired),
{
    if ctx.creator != ctx.content.creator {
        return Err(ErrorCode::NotAuthorized);
    }
    if ctx.seller_purchase.buyer != ctx.seller {
        return Err(ErrorCode::NotAuthorized);
    }
    if ctx.seller_purchase.content != ctx.content_key {
        return Err(ErrorCode::NotAuthorized);
    }
    if ctx.buyer == ctx.seller || ctx.buyer_purchase.is_some() {
        return Err(ErrorCode::AccountAlreadyInUse);
    }
    if !ctx.content.active {
        return Err(ErrorCode::ContentNotActive);
    }
    if price == 0 {
        return Err(ErrorCode::InvalidPrice);
    }
    if !ctx.seller_purchase.resale_rights {
        return Err(ErrorCode::NoResaleRights);
    }
    if let Some(expiration) = ctx.seller_purchase.expiration {
        if now >= expiration {
            return Err(ErrorCode::PurchaseExpired);
        }
    }
    let transfers = match transfer_resale_funds(
        ctx.buyer,
        ctx.creator,
        ctx.seller,
        ctx.platform_key,
        price,
        ctx.content.royalty_percentage,
        ctx.platform.platform_fee,
    ) {
        Ok(transfers) => transfers,
        Err(code) => {
            return Err(code);
        },
    };
    let royalty: u64 = transfers[0].lamports;
    ctx.platform.total_sales_volume = ctx.platform.total_sales_volume + price;
    ctx.buyer_purchase = Some(
        Purchase {
            buyer: ctx.buyer,
            content: ctx.content_key,
            price,
            timestamp: now,
            resale_rights: ctx.seller_purchase.resale_rights,
            purchase_type: ctx.seller_purchase.purchase_type,
            expiration: ctx.seller_purchase.expiration,
        },
    );
    let event = ContentResold {
        content_id: ctx.content.id.clone(),
        seller: ctx.seller,
        buyer: ctx.buyer,
        creator: ctx.creator,
        price,
        royalty_amount: royalty,
        timestamp: now,
    };
    Ok((transfers, event))
}

/// A license is sold on to a buyer once: on the accounts that
/// `resell_content` leaves, `resell_content` is refused, whatever the price.
pub proof fn lemma_resell_once(
    ctx: ResellContent,
    price: u64,
    now: i64,
    again_price: u64,
    later: i64,
)
    requires
        resell_rejection(ctx, price, now) is None,
    ensures
        resell_rejection(resold(ctx, price, now), again_price, later) == Some(
            ErrorCode::AccountAlreadyInUse,
        ),
{
}

/// A rental cannot be sold on: a resale of the license that `rent_content`
/// issues is refused, whatever the price and the time, and for want of resale
/// rights where it gets as far as the license.
pub proof fn lemma_rental_cannot_be_resold(
    rent: RentContent,
    rented_at: i64,
    ctx: ResellContent,
    price: u64,
    now: i64,
)
    requires
        ctx.seller_purchase == rented_license(rent, rented_at),
    ensures
        resell_rejection(ctx, price, now) is Some,
        resale_admitted(ctx, price) ==> resell_rejection(ctx, price, now) == Some(
            ErrorCode::NoResaleRights,
        ),
{
}

/// A full license can be sold on at any time: a resale of the license that
/// `purchase_content` issues is never refused for want of resale rights nor
/// because the license has ended.
pub proof fn lemma_purchase_can_be_resold(
    sale: PurchaseContent,
    sold_at: i64,
    ctx: ResellContent,
    price: u64,
    now: i64,
)
    requires
        ctx.seller_purchase == purchased_license(sale, sold_at),
    ensures
        resell_rejection(ctx, price, now) != Some(ErrorCode::NoResaleRights),
        resell_rejection(ctx, price, now) != Some(ErrorCode::PurchaseExpired),
{
}

/// A resale hands the seller's rights on unchanged: the buyer's license is
/// refused a resale for want of rights, or as ended, exactly when the seller's
/// would be.
pub proof fn lemma_resale_hands_rights_on(
    ctx: ResellContent,
    price: u64,
    now: i64,
    later: i64,
)
    ensures
        resold_license(ctx, price, now).resale_rights == ctx.seller_purchase.resale_rights,
        license_expired(resold_license(ctx, price, now), later) == license_expired(
            ctx.seller_purchase,
            later,
        ),
        ctx.seller_purchase.wf() ==> resold_license(ctx, price, now).wf(),
{
}

/// A content that is not on sale is neither sold nor rented out nor sold on,
/// and that is the reason given wherever the accounts belong together and the
/// license is yet to be issued.
pub proof fn lemma_inactive_content_is_off_sale(
    sale: PurchaseContent,
    rent: RentContent,
    resale: ResellContent,
    price: u64,
    now: i64,
)
    requires
        !sale.content.active,
        !rent.content.active,
        !resale.content.active,
    ensures
        purchase_rejection(sale) is Some,
        rent_rejection(rent) is Some,
        resell_rejection(resale, price, now) is Some,
        sale.creator == sale.content.creator && sale.purchase is None ==> purchase_rejection(sale)
            == Some(ErrorCode::ContentNotActive),
        rent.creator == rent.content.creator && rent.rental is None ==> rent_rejection(rent)
            == Some(ErrorCode::ContentNotActive),
        resale_authorized(resale) && !resale_slot_taken(resale) ==> resell_rejection(
            resale,
            price,
            now,
        ) == Some(ErrorCode::ContentNotActive),
{
}

} // verus!
