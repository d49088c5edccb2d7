//! Setting the platform up.

use crate::address::Address;
use crate::error::ErrorCode;
use crate::event::PlatformInitialized;
use crate::state::Platform;
use vstd::prelude::*;

verus! {

/// The accounts of `initialize`.
#[derive(Clone, Copy, Debug, PartialEq, Eq)]
pub struct Initialize {
    /// The record at the platform's address (`find_platform_address`): `None`
    /// as long as the platform was not set up.
    pub platform: Option<Platform>,
    /// Who signs, and becomes the platform's authority.
    pub authority: Address,
}

/// Why `initialize` refuses, if it does.
pub open spec fn initialize_rejection(ctx: Initialize, platform_fee: u64) -> Option<ErrorCode> {
    if ctx.platform is Some {
        Some(ErrorCode::AccountAlreadyInUse)
    } else if platform_fee == 0 {
        Some(ErrorCode::InvalidFeeAmount)
    } else {
        None
    }
}

/// The accounts after `initialize`: the platform has its record, with the
/// signer as authority, the fee, and counters at zero.
pub open spec fn initialized(ctx: Initialize, platform_fee: u64) -> Initialize {
    Initialize {
        platform: Some(
            Platform {
                authority: ctx.authority,
                platform_fee,
                total_content_count: 0,
                total_sales_volume: 0,
            },
        ),
        ..ctx
    }
}

/// Sets the platform up: the signer becomes its authority, `platform_fee` its
/// fee, and its counters start at zero.
///
/// Refused are, in this order: a platform that was set up before
/// (`AccountAlreadyInUse`) and a fee of zero (`InvalidFeeAmount`).
pub fn initialize(
    ctx: &mut Initialize,
    platform_fee: u64,
    now: i64,
) -> (result: Result<PlatformInitialized, ErrorCode>)
    ensures
        match result {
            Ok(event) => {
                &&& initialize_rejection(*old(ctx), platform_fee) is None
                &&& *final(ctx) == initialized(*old(ctx), platform_fee)
                &&& final(ctx).platform->0.wf()
                &&& event == (PlatformInitialized {
                    authority: old(ctx).authority,
                    platform_fee,
                    timestamp: now,
                })
            },
            Err(code) => {
                &&& initialize_rejection(*old(ctx), platform_fee) == Some(code)
                &&& *final(ctx) == *old(ctx)
            },
        },
{
    if ctx.platform.is_some() {
        return Err(ErrorCode::AccountAlreadyInUse);
    }
    if platform_fee == 0 {
        return Err(ErrorCode::InvalidFeeAmount);
    }
    ctx.platform = Some(
        Platform {
            authority: ctx.authority,
            platform_fee,
            total_content_count: 0,
            total_sales_volume: 0,
        },
    );
    Ok(PlatformInitialized { authority: ctx.authority, platform_fee, timestamp: now })
}

/// The platform is set up once: on the accounts that `initialize` leaves,
/// `initialize` is refused, whatever the fee.
pub proof fn lemma_initialize_once(ctx: Initialize, platform_fee: u64, again_fee: u64)
    requires
        initialize_rejection(ctx, platform_fee) is None,
    ensures
        initialize_rejection(initialized(ctx, platform_fee), again_fee) == Some(
            ErrorCode::AccountAlreadyInUse,
        ),
{
}

} // verus!
