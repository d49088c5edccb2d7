//! Subscriptions.

use crate::address::Address;
use crate::error::ErrorCode;
use crate::event::SubscriptionCreated;
use crate::state::{Subscription, SUBSCRIPTION_PERIOD};
use crate::transfer::{
    fixed_price_transfer, subscription_price, tier_price, total_lamports, Transfer,
};
use vstd::prelude::*;

verus! {

/// The accounts of `subscribe`.
#[derive(Clone, Copy, Debug, PartialEq, Eq)]
pub struct Subscribe {
    /// Who signs, and pays.
    pub subscriber: Address,
    /// The address of the platform's record, which collects the price.
    pub platform_key: Address,
    /// The record at the address of the subscriber's subscription
    /// (`find_subscription_address`): `None` as long as they never subscribed.
    pub subscription: Option<Subscription>,
}

/// Why `subscribe` refuses, if it does.
pub open spec fn subscribe_rejection(tier: u8) -> Option<ErrorCode> {
    if tier_price(tier) is None {
        Some(ErrorCode::InvalidSubscriptionTier)
    } else {
        None
    }
}

/// The subscription that is taken out at the time `now`.
pub open spec fn subscribed(subscriber: Address, tier: u8, now: i64) -> Subscription {
    Subscription {
        subscriber,
        tier,
        start_time: now,
        expiration_time: (now + SUBSCRIPTION_PERIOD) as i64,
        active: true,
    }
}

/// Takes out a subscription to `tier`: the subscriber pays the tier's price,
/// all of it to the platform, and is subscribed for thirty days from `now`.
///
/// A subscriber who subscribes again is subscribed anew: the record is
/// replaced, whatever it held, and the new period starts at `now`.
///
/// Refused is a tier other than 1, 2 and 3.
pub fn subscribe(
    ctx: &mut Subscribe,
    tier: u8,
    now: i64,
) -> (result: Result<(Vec<Transfer>, SubscriptionCreated), ErrorCode>)
    requires
        subscribe_rejection(tier) is None ==> now + SUBSCRIPTION_PERIOD <= i64::MAX,
    ensures
        match result {
            Ok((transfers, event)) => {
                &&& tier_price(tier) is Some
                &&& transfers@ == fixed_price_transfer(
                    old(ctx).subscriber,
                    old(ctx).platform_key,
                    tier_price(tier)->0,
                )
                &&& total_lamports(transfers@) == tier_price(tier)->0
                &&& final(ctx).subscription == Some(subscribed(old(ctx).subscriber, tier, now))
                &&& final(ctx).subscription->0.wf()
                &&& final(ctx).subscriber == old(ctx).subscriber
                &&& final(ctx).platform_key == old(ctx).platform_key
                &&& event == (SubscriptionCreated {
                    subscriber: old(ctx).subscriber,
                    tier,
                    price: tier_price(tier)->0,
                    expiration: (now + SUBSCRIPTION_PERIOD) as i64,
                    timestamp: now,
                })
            },
            Err(code) => subscribe_rejection(tier) == Some(code) && *final(ctx) == *old(ctx),
        },
{
    let price: u64 = match subscription_price(tier) {
        Some(price) => price,
        None => {
            return Err(ErrorCode::InvalidSubscriptionTier);
        },
    };
    let mut transfers: Vec<Transfer> = Vec::new();
    transfers.push(Transfer { from: ctx.subscriber, to: ctx.platform_key, lamports: price });
    let expiration_time: i64 = now + SUBSCRIPTION_PERIOD;
    ctx.subscription = Some(
        Subscription {
            subscriber: ctx.subscriber,
            tier,
            start_time: now,
            expiration_time,
            active: true,
        },
    );
    let event = SubscriptionCreated {
        subscriber: ctx.subscriber,
        tier,
        price,
        expiration: expiration_time,
        timestamp: now,
    };
    proof {
        assert(transfers@ =~= fixed_price_transfer(ctx.subscriber, ctx.platform_key, price));
        assert(transfers@.drop_last().len() == 0);
        assert(total_lamports(transfers@.drop_last()) == 0);
    }
    Ok((transfers, event))
}

} // verus!
