use vstd::prelude::*;
use crate::address::Address;
use crate::error::SwapError;
use crate::instructions::taker_offer::{Closing, Transfer};
use crate::state::admin::AdminConfig;
use crate::state::offer::{Offer, OfferStatus};
use crate::state::vault::EscrowVault;

verus! {

/// Why an offer was cancelled.
#[derive(Clone, Copy, Debug, PartialEq, Eq, Structural)]
pub enum CancellationReason {
    /// The deadline had passed.
    Expired,
    /// The maker withdrew the offer before its deadline.
    MakerCancelled,
}

/// What one cancellation did.
#[derive(Clone, Copy, Debug, PartialEq, Eq)]
pub struct OfferCancelled {
    pub offer_id: u64,
    pub maker: Address,
    /// How much of the escrow went back to the maker.
    pub token_amount: u64,
    pub token_mint: Address,
    pub reason: CancellationReason,
    pub timestamp: i64,
}

/// The records that a cancellation reads and changes.
#[derive(Clone, Copy, Debug, PartialEq, Eq)]
pub struct CancelOffer {
    /// Who asks for the cancellation.
    pub caller: Address,
    pub offer: Offer,
    /// The address at which the offer lives: the vault's release authority.
    pub offer_key: Address,
    pub vault_token_account: EscrowVault,
    pub admin_config: AdminConfig,
}

/// What a cancellation asks of the ledger, in the order in which it is to
/// be carried out, with its account.
#[derive(Clone, Copy, Debug, PartialEq, Eq)]
pub struct Cancellation {
    /// The vault returns what remains to the maker.
    pub refund: Transfer,
    /// The vault, now empty, and the allow-list are closed in the maker's
    /// favour.
    pub closing: Closing,
    pub cancelled: OfferCancelled,
}

/// The error with which a cancellation at time `now` is refused, or `None`
/// where it goes through; the checks are made in this order. Only an open
/// offer can be cancelled, before the deadline only by its maker and after
/// it by anyone, and only out of a vault that is the offer's own and holds
/// exactly what remains.
pub open spec fn cancel_rejection(ctx: &CancelOffer, now: i64) -> Option<SwapError> {
    let offer = ctx.offer;
    let vault = ctx.vault_token_account;
    if offer.status != OfferStatus::Ongoing {
        Some(SwapError::InvalidOfferStatus)
    } else if !(now > offer.deadline || ctx.caller == offer.maker) {
        Some(SwapError::CannotCancelOffer)
    } else if vault.closed || vault.owner != ctx.offer_key {
        Some(SwapError::InvalidTokenAccount)
    } else if vault.mint != offer.input_token_mint {
        Some(SwapError::InvalidTokenMint)
    } else if vault.amount != offer.token_amount_remaining || !ctx.admin_config.can_record(
        Some(OfferStatus::Ongoing),
        OfferStatus::Cancelled,
    ) {
        Some(SwapError::CalculationError)
    } else {
        None
    }
}

/// The records after a cancellation: the offer is cancelled, the vault is
/// empty and closed, and the counters have recorded the move.
pub open spec fn after_cancel(ctx: &CancelOffer) -> CancelOffer {
    CancelOffer {
        offer: Offer { status: OfferStatus::Cancelled, ..ctx.offer },
        vault_token_account: EscrowVault { amount: 0, closed: true, ..ctx.vault_token_account },
        admin_config: ctx.admin_config.recorded(
            Some(OfferStatus::Ongoing),
            OfferStatus::Cancelled,
        ),
        ..*ctx
    }
}

/// What a cancellation at time `now` asks of the ledger: everything that
/// remains goes from the vault to the offer's maker, in the offer's name.
pub open spec fn cancellation_of(ctx: &CancelOffer, now: i64) -> Cancellation {
    Cancellation {
        refund: Transfer {
            mint: ctx.offer.input_token_mint,
            from: ctx.offer_key,
            to: ctx.offer.maker,
            authority: ctx.offer_key,
            amount: ctx.offer.token_amount_remaining,
        },
        closing: Closing { offer: ctx.offer_key, refund_to: ctx.offer.maker },
        cancelled: OfferCancelled {
            offer_id: ctx.offer.offer_id,
            maker: ctx.offer.maker,
            token_amount: ctx.offer.token_amount_remaining,
            token_mint: ctx.offer.input_token_mint,
            reason: if now > ctx.offer.deadline {
                CancellationReason::Expired
            } else {
                CancellationReason::MakerCancelled
            },
            timestamp: now,
        },
    }
}

/// Cancels the offer in `ctx` at time `current_time`: the whole remaining
/// escrow goes back to the maker, and the vault and the allow-list are
/// ordered closed in the maker's favour.
///
/// The cancellation is refused, with the error that `cancel_rejection`
/// names and no change to any record, unless the offer is open, the caller
/// is the maker or the deadline has passed, and the vault is the offer's
/// own with exactly the remaining amount in it.
pub fn update_cancel_offer(ctx: &mut CancelOffer, current_time: i64) -> (outcome: Result<
    Cancellation,
    SwapError,
>)
    ensures
        match outcome {
            Ok(cancellation) => {
                &&& cancel_rejection(old(ctx), current_time) is None
                &&& *final(ctx) == after_cancel(old(ctx))
                &&& cancellation == cancellation_of(old(ctx), current_time)
            },
            Err(e) => {
                &&& cancel_rejection(old(ctx), current_time) == Some(e)
                &&& *final(ctx) == *old(ctx)
            },
        },
        old(ctx).offer.status.is_terminal() ==> outcome == Err::<Cancellation, SwapError>(
            SwapError::InvalidOfferStatus,
        ),
        final(ctx).offer.token_amount_remaining == old(ctx).offer.token_amount_remaining,
        final(ctx).offer.expected_fulfilled_amount == old(ctx).offer.expected_fulfilled_amount,
        old(ctx).offer.status.no_later_than(final(ctx).offer.status),
        old(ctx).offer.wf() ==> final(ctx).offer.wf(),
        old(ctx).admin_config.wf() ==> final(ctx).admin_config.wf(),
        old(ctx).vault_token_account.backs(&old(ctx).offer) ==> final(
            ctx
        ).vault_token_account.backs(&final(ctx).offer),
{
    if ctx.offer.status != OfferStatus::Ongoing {
        return Err(SwapError::InvalidOfferStatus);
    }
    let is_expired = current_time > ctx.offer.deadline;
    let is_maker = ctx.caller == ctx.offer.maker;
    if !(is_expired || is_maker) {
        return Err(SwapError::CannotCancelOffer);
    }
    if ctx.vault_token_account.closed || ctx.vault_token_account.owner != ctx.offer_key {
        return Err(SwapError::InvalidTokenAccount);
    }
    if ctx.vault_token_account.mint != ctx.offer.input_token_mint {
        return Err(SwapError::InvalidTokenMint);
    }
    let token_amount = ctx.offer.token_amount_remaining;
    if ctx.vault_token_account.amount != token_amount {
        return Err(SwapError::CalculationError);
    }
    match ctx.admin_config.update_offer_status(Some(OfferStatus::Ongoing), OfferStatus::Cancelled) {
        Ok(_) => {},
        Err(_) => {
            return Err(SwapError::CalculationError);
        },
    }
    let reason = if is_expired {
        CancellationReason::Expired
    } else {
        CancellationReason::MakerCancelled
    };
    let refund = Transfer {
        mint: ctx.offer.input_token_mint,
        from: ctx.offer_key,
        to: ctx.offer.maker,
        authority: ctx.offer_key,
        amount: token_amount,
    };
    ctx.vault_token_account.amount = 0;
    ctx.vault_token_account.closed = true;
    ctx.offer.status = OfferStatus::Cancelled;
    Ok(
        Cancellation {
            refund,
            closing: Closing { offer: ctx.offer_key, refund_to: ctx.offer.maker },
            cancelled: OfferCancelled {
                offer_id: ctx.offer.offer_id,
                maker: ctx.offer.maker,
                token_amount,
                token_mint: ctx.offer.input_token_mint,
                reason,
                timestamp: current_time,
            },
        },
    )
}

} // verus!
