use vstd::prelude::*;
use crate::address::Address;
use crate::error::SwapError;
use crate::state::admin::AdminConfig;
use crate::state::offer::{Offer, OfferStatus};

verus! {

/// The records that marking an offer expired reads and changes.
#[derive(Clone, Copy, Debug, PartialEq, Eq)]
pub struct CheckExpiredOffer {
    pub admin_config: AdminConfig,
    /// Who asks for the offer to be marked.
    pub admin: Address,
    pub offer: Offer,
}

/// The error with which marking the offer expired at time `now` is
/// refused, or `None` where it goes through; the checks are made in this
/// order. Only the administrator can mark an offer, only an open one, and
/// only after its deadline.
pub open spec fn expire_rejection(ctx: &CheckExpiredOffer, now: i64) -> Option<SwapError> {
    if ctx.offer.status != OfferStatus::Ongoing {
        Some(SwapError::InvalidOfferStatus)
    } else if ctx.admin_config.admin != ctx.admin {
        Some(SwapError::UnauthorizedAdmin)
    } else if !(now > ctx.offer.deadline) {
        Some(SwapError::OfferNotExpired)
    } else if !ctx.admin_config.can_record(Some(OfferStatus::Ongoing), OfferStatus::Expired) {
        Some(SwapError::CalculationError)
    } else {
        None
    }
}

/// The records after the offer was marked expired at time `now`: only the
/// status, the counters and the time of the last marking change.
pub open spec fn after_expire(ctx: &CheckExpiredOffer, now: i64) -> CheckExpiredOffer {
    CheckExpiredOffer {
        admin_config: AdminConfig {
            last_expiry_check: now,
            ..ctx.admin_config.recorded(Some(OfferStatus::Ongoing), OfferStatus::Expired)
        },
        offer: Offer { status: OfferStatus::Expired, ..ctx.offer },
        ..*ctx
    }
}

/// Marks the offer in `ctx` expired at time `current_time`. This freezes
/// the offer and moves no funds: the vault keeps what remains.
///
/// The marking is refused, with the error that `expire_rejection` names and
/// no change to any record, unless the offer is open, the caller is the
/// administrator and the deadline has passed.
pub fn update_expire_offer(ctx: &mut CheckExpiredOffer, current_time: i64) -> (outcome: Result<
    (),
    SwapError,
>)
    ensures
        match outcome {
            Ok(_) => {
                &&& expire_rejection(old(ctx), current_time) is None
                &&& *final(ctx) == after_expire(old(ctx), current_time)
            },
            Err(e) => {
                &&& expire_rejection(old(ctx), current_time) == Some(e)
                &&& *final(ctx) == *old(ctx)
            },
        },
        old(ctx).offer.status.is_terminal() ==> outcome == Err::<(), SwapError>(
            SwapError::InvalidOfferStatus,
        ),
        final(ctx).offer.token_amount_remaining == old(ctx).offer.token_amount_remaining,
        final(ctx).offer.expected_fulfilled_amount == old(ctx).offer.expected_fulfilled_amount,
        old(ctx).offer.status.no_later_than(final(ctx).offer.status),
        old(ctx).offer.wf() ==> final(ctx).offer.wf(),
        old(ctx).admin_config.wf() ==> final(ctx).admin_config.wf(),
{
    if ctx.offer.status != OfferStatus::Ongoing {
        return Err(SwapError::InvalidOfferStatus);
    }
    if ctx.admin_config.admin != ctx.admin {
        return Err(SwapError::UnauthorizedAdmin);
    }
    if !(current_time > ctx.offer.deadline) {
        return Err(SwapError::OfferNotExpired);
    }
    match ctx.admin_config.update_offer_status(Some(OfferStatus::Ongoing), OfferStatus::Expired) {
        Ok(_) => {},
        Err(_) => {
            return Err(SwapError::CalculationError);
        },
    }
    ctx.admin_config.last_expiry_check = current_time;
    ctx.offer.status = OfferStatus::Expired;
    Ok(())
}

} // verus!
