//! Listing a content and changing its listing.

use crate::address::Address;
use crate::error::ErrorCode;
use crate::event::{ContentCreated, ContentUpdated};
use crate::state::{Content, Platform};
use vstd::prelude::*;

verus! {

/// The accounts of `create_content`.
#[derive(Clone, Debug, PartialEq, Eq)]
pub struct CreateContent {
    /// The record at the address of the content's identifier
    /// (`find_content_address`): `None` as long as no content was listed under
    /// the identifier.
    pub content: Option<Content>,
    /// Who signs, and becomes the content's creator.
    pub creator: Address,
    /// The platform's record.
    pub platform: Platform,
}

/// The accounts of `update_content`.
#[derive(Clone, Debug, PartialEq, Eq)]
pub struct UpdateContent {
    /// The content's record.
    pub content: Content,
    /// Who signs.
    pub creator: Address,
}

/// Why `create_content` refuses, if it does. The terms of a rental are looked
/// at only where rental is enabled.
pub open spec fn create_content_rejection(
    ctx: CreateContent,
    content_id: Seq<char>,
    arweave_id: Seq<char>,
    price: u64,
    royalty_percentage: u8,
    rental_enabled: bool,
    rental_price: u64,
    rental_duration: i64,
) -> Option<ErrorCode> {
    if ctx.content is Some {
        Some(ErrorCode::AccountAlreadyInUse)
    } else if content_id.len() == 0 {
        Some(ErrorCode::InvalidContentId)
    } else if arweave_id.len() == 0 {
        Some(ErrorCode::InvalidArweaveId)
    } else if price == 0 {
        Some(ErrorCode::InvalidPrice)
    } else if royalty_percentage > 100 {
        Some(ErrorCode::InvalidRoyaltyPercentage)
    } else if rental_enabled && rental_price == 0 {
        Some(ErrorCode::InvalidRentalPrice)
    } else if rental_enabled && rental_duration <= 0 {
        Some(ErrorCode::InvalidRentalDuration)
    } else {
        None
    }
}

/// The accounts after `create_content` at the time `now`: the content has its
/// record, on sale and with no sale yet, and the platform counts one content
/// more.
pub open spec fn content_created(
    ctx: CreateContent,
    content_id: String,
    arweave_id: String,
    price: u64,
    royalty_percentage: u8,
    rental_enabled: bool,
    rental_price: u64,
    rental_duration: i64,
    subscription_tier: u8,
    now: i64,
) -> CreateContent {
    CreateContent {
        content: Some(
            Content {
                id: content_id,
                creator: ctx.creator,
                arweave_id,
                price,
                royalty_percentage,
                sales_count: 0,
                active: true,
                created_at: now,
                rental_enabled,
                rental_price,
                rental_duration,
                subscription_tier,
            },
        ),
        platform: Platform {
            total_content_count: (ctx.platform.total_content_count + 1) as u64,
            ..ctx.platform
        },
        ..ctx
    }
}

/// Lists a content: fills its record, on sale and with no sale yet, and counts
/// it on the platform.
///
/// Refused are, in this order: an identifier under which a content is listed
/// already (`AccountAlreadyInUse`), an empty identifier (`InvalidContentId`),
/// an empty locator (`InvalidArweaveId`), a price of zero (`InvalidPrice`), a
/// royalty of more than a hundred percent (`InvalidRoyaltyPercentage`) and,
/// where rental is enabled, a rental price of zero (`InvalidRentalPrice`) and
/// a rental duration that is not positive (`InvalidRentalDuration`).
pub fn create_content(
    ctx: &mut CreateContent,
    content_id: String,
    arweave_id: String,
    price: u64,
    royalty_percentage: u8,
    rental_enabled: bool,
    rental_price: u64,
    rental_duration: i64,
    subscription_tier: u8,
    now: i64,
) -> (result: Result<ContentCreated, ErrorCode>)
    requires
        create_content_rejection(
            *old(ctx),
            content_id@,
            arweave_id@,
            price,
            royalty_percentage,
            rental_enabled,
            rental_price,
            rental_duration,
        ) is None ==> old(ctx).platform.total_content_count < u64::MAX,
    ensures
        match result {
            Ok(event) => {
                &&& create_content_rejection(
                    *old(ctx),
                    content_id@,
                    arweave_id@,
                    price,
                    royalty_percentage,
                    rental_enabled,
                    rental_price,
                    rental_duration,
                ) is None
                &&& *final(ctx) == content_created(
                    *old(ctx),
                    content_id,
                    arweave_id,
                    price,
                    royalty_percentage,
                    rental_enabled,
                    rental_price,
                    rental_duration,
                    subscription_tier,
                    now,
                )
                &&& final(ctx).content->0.active
                &&& final(ctx).content->0.sales_count == 0
                &&& final(ctx).content->0.wf()
                &&& final(ctx).content->0.rental_wf()
                &&& final(ctx).platform.total_content_count == old(ctx).platform.total_content_count
                    + 1
                &&& (old(ctx).platform.wf() ==> final(ctx).platform.wf())
                &&& event == (ContentCreated {
                    content_id,
                    creator: old(ctx).creator,
                    price,
                    royalty_percentage,
                    rental_enabled,
                    subscription_tier,
                    timestamp: now,
                })
            },
            Err(code) => {
                &&& create_content_rejection(
                    *old(ctx),
                    content_id@,
                    arweave_id@,
                    price,
                    royalty_percentage,
                    rental_enabled,
                    rental_price,
                    rental_duration,
                ) == Some(code)
                &&& *final(ctx) == *old(ctx)
            },
        },
{
    if ctx.content.is_some() {
        return Err(ErrorCode::AccountAlreadyInUse);
    }
    if content_id.as_str().is_empty() {
        return Err(ErrorCode::InvalidContentId);
    }
    if arweave_id.as_str().is_empty() {
        return Err(ErrorCode::InvalidArweaveId);
    }
    if price == 0 {
        return Err(ErrorCode::InvalidPrice);
    }
    if royalty_percentage > 100 {
        return Err(ErrorCode::InvalidRoyaltyPercentage);
    }
    if rental_enabled {
        if rental_price == 0 {
            return Err(ErrorCode::InvalidRentalPrice);
        }
        if rental_duration <= 0 {
            return Err(ErrorCode::InvalidRentalDuration);
        }
    }
    ctx.content = Some(
        Content {
            id: content_id.clone(),
            creator: ctx.creator,
            arweave_id,
            price,
            royalty_percentage,
            sales_count: 0,
            active: true,
            created_at: now,
            rental_enabled,
            rental_price,
            rental_duration,
            subscription_tier,
        },
    );
    ctx.platform.total_content_count = ctx.platform.total_content_count + 1;
    Ok(
        ContentCreated {
            content_id,
            creator: ctx.creator,
            price,
            royalty_percentage,
            rental_enabled,
            subscription_tier,
            timestamp: now,
        },
    )
}

/// An identifier is taken once: on the accounts that `create_content` leaves,
/// `create_content` is refused, whatever is to be listed.
pub proof fn lemma_create_content_once(
    ctx: CreateContent,
    content_id: String,
    arweave_id: String,
    price: u64,
    royalty_percentage: u8,
    rental_enabled: bool,
    rental_price: u64,
    rental_duration: i64,
    subscription_tier: u8,
    now: i64,
    again_arweave_id: Seq<char>,
    again_price: u64,
    again_royalty_percentage: u8,
    again_rental_enabled: bool,
    again_rental_price: u64,
    again_rental_duration: i64,
)
    requires
        create_content_rejection(
            ctx,
            content_id@,
            arweave_id@,
            price,
            royalty_percentage,
            rental_enabled,
            rental_price,
            rental_duration,
        ) is None,
    ensures
        create_content_rejection(
            content_created(
                ctx,
                content_id,
                arweave_id,
                price,
                royalty_percentage,
                rental_enabled,
                rental_price,
                rental_duration,
                subscription_tier,
                now,
            ),
            content_id@,
            again_arweave_id,
            again_price,
            again_royalty_percentage,
            again_rental_enabled,
            again_rental_price,
            again_rental_duration,
        ) == Some(ErrorCode::AccountAlreadyInUse),
{
}

/// Why `update_content` refuses, if it does. Only the creator may change a
/// listing, and each new value is looked at by itself.
pub open spec fn update_content_rejection(
    ctx: UpdateContent,
    price: Option<u64>,
    rental_price: Option<u64>,
    rental_duration: Option<i64>,
) -> Option<ErrorCode> {
    if ctx.creator != ctx.content.creator {
        Some(ErrorCode::NotAuthorized)
    } else if price == Some(0u64) {
        Some(ErrorCode::InvalidPrice)
    } else if rental_price == Some(0u64) {
        Some(ErrorCode::InvalidRentalPrice)
    } else if rental_duration is Some && rental_duration->0 <= 0 {
        Some(ErrorCode::InvalidRentalDuration)
    } else {
        None
    }
}

/// A listing after a change: each field has its new value where one was given
/// and keeps its value where none was.
pub open spec fn updated_content(
    content: Content,
    price: Option<u64>,
    active: Option<bool>,
    rental_enabled: Option<bool>,
    rental_price: Option<u64>,
    rental_duration: Option<i64>,
    subscription_tier: Option<u8>,
) -> Content {
    Content {
        price: price.unwrap_or(content.price),
        active: active.unwrap_or(content.active),
        rental_enabled: rental_enabled.unwrap_or(content.rental_enabled),
        rental_price: rental_price.unwrap_or(content.rental_price),
        rental_duration: rental_duration.unwrap_or(content.rental_duration),
        subscription_tier: subscription_tier.unwrap_or(content.subscription_tier),
        ..content
    }
}

/// Changes a listing: the fields for which a value is given take it, the
/// others stay. Identifier, creator, locator, royalty, sales and date of
/// listing cannot be changed.
///
/// Each value is looked at by itself: rental can be enabled on a content
/// whose rental terms were never set.
///
/// Refused are, in this order: a signer who is not the creator
/// (`NotAuthorized`), a new price of zero (`InvalidPrice`), a new rental price
/// of zero (`InvalidRentalPrice`) and a new rental duration that is not
/// positive (`InvalidRentalDuration`).
pub fn update_content(
    ctx: &mut UpdateContent,
    price: Option<u64>,
    active: Option<bool>,
    rental_enabled: Option<bool>,
    rental_price: Option<u64>,
    rental_duration: Option<i64>,
    subscription_tier: Option<u8>,
    now: i64,
) -> (result: Result<ContentUpdated, ErrorCode>)
    ensures
        match result {
            Ok(event) => {
                &&& update_content_rejection(*old(ctx), price, rental_price, rental_duration)
                    is None
                &&& final(ctx).content == updated_content(
                    old(ctx).content,
                    price,
                    active,
                    rental_enabled,
                    rental_price,
                    rental_duration,
                    subscription_tier,
                )
                &&& final(ctx).creator == old(ctx).creator
                &&& final(ctx).content.id == old(ctx).content.id
                &&& final(ctx).content.creator == old(ctx).content.creator
                &&& (old(ctx).content.wf() ==> final(ctx).content.wf())
                &&& event == (ContentUpdated {
                    content_id: old(ctx).content.id,
                    creator: old(ctx).content.creator,
                    price: final(ctx).content.price,
                    active: final(ctx).content.active,
                    rental_enabled: final(ctx).content.rental_enabled,
                    timestamp: now,
                })
            },
            Err(code) => {
                &&& update_content_rejection(*old(ctx), price, rental_price, rental_duration)
                    == Some(code)
                &&& *final(ctx) == *old(ctx)
            },
        },
{
    if ctx.creator != ctx.content.creator {
        return Err(ErrorCode::NotAuthorized);
    }
    if let Some(new_price) = price {
        if new_price == 0 {
            return Err(ErrorCode::InvalidPrice);
        }
    }
    if let Some(new_rental_price) = rental_price {
        if new_rental_price == 0 {
            return Err(ErrorCode::InvalidRentalPrice);
        }
    }
    if let Some(new_rental_duration) = rental_duration {
        if new_rental_duration <= 0 {
            return Err(ErrorCode::InvalidRentalDuration);
        }
    }
    if let Some(new_price) = price {
        ctx.content.price = new_price;
    }
    if let Some(new_active) = active {
        ctx.content.active = new_active;
    }
    if let Some(new_rental_enabled) = rental_enabled {
        ctx.content.rental_enabled = new_rental_enabled;
    }
    if let Some(new_rental_price) = rental_price {
        ctx.content.rental_price = new_rental_price;
    }
    if let Some(new_rental_duration) = rental_duration {
        ctx.content.rental_duration = new_rental_duration;
    }
    if let Some(new_subscription_tier) = subscription_tier {
        ctx.content.subscription_tier = new_subscription_tier;
    }
    Ok(
        ContentUpdated {
            content_id: ctx.content.id.clone(),
            creator: ctx.content.creator,
            price: ctx.content.price,
            active: ctx.content.active,
            rental_enabled: ctx.content.rental_enabled,
            timestamp: now,
        },
    )
}

/// A change without a value changes nothing.
pub proof fn lemma_update_with_nothing_given(content: Content)
    ensures
        updated_content(content, None, None, None, None, None, None) == content,
{
}

/// A change touches the fields it names and no others: what can be changed
/// keeps its value unless one is given, and the rest stays whatever is
/// given.
pub proof fn lemma_update_touches_what_is_given(
    content: Content,
    price: Option<u64>,
    active: Option<bool>,
    rental_enabled: Option<bool>,
    rental_price: Option<u64>,
    rental_duration: Option<i64>,
    subscription_tier: Option<u8>,
)
    ensures
        ({
            let after = updated_content(
                content,
                price,
                active,
                rental_enabled,
                rental_price,
                rental_duration,
                subscription_tier,
            );
            &&& (price is None ==> after.price == content.price)
            &&& (active is None ==> after.active == content.active)
            &&& (rental_enabled is None ==> after.rental_enabled == content.rental_enabled)
            &&& (rental_price is None ==> after.rental_price == content.rental_price)
            &&& (rental_duration is None ==> after.rental_duration == content.rental_duration)
            &&& (subscription_tier is None ==> after.subscription_tier
                == content.subscription_tier)
            &&& after.id == content.id
            &&& after.creator == content.creator
            &&& after.arweave_id == content.arweave_id
            &&& after.royalty_percentage == content.royalty_percentage
            &&& after.sales_count == content.sales_count
            &&& after.created_at == content.created_at
        }),
{
}

} // verus!
