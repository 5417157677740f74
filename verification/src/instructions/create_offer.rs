use vstd::prelude::*;
use crate::address::Address;
use crate::error::SwapError;
use crate::instructions::taker_offer::Transfer;
use crate::state::admin::{AdminConfig, FeeConfig};
use crate::state::offer::{Offer, OfferStatus};
use crate::state::vault::EscrowVault;
use crate::state::whitelist::{
    add_entries,
    copy_list,
    lemma_with_entries,
    with_entries,
    Whitelist,
    MAX_WHITELIST_ENTRIES,
};

verus! {

/// What one creation did.
#[derive(Clone, Copy, Debug, PartialEq, Eq)]
pub struct OfferCreated {
    pub offer_id: u64,
    pub maker: Address,
    pub input_token_mint: Address,
    pub output_token_mint: Address,
    pub token_amount: u64,
    pub expected_amount: u64,
    pub deadline: i64,
}

/// What one replacement of an allow-list did.
#[derive(Clone, Debug, PartialEq, Eq)]
pub struct TakerUpdated {
    pub offer_id: u64,
    pub maker: Address,
    /// The takers now on the list.
    pub takers: Vec<Address>,
}

/// The records that a replacement of an offer's allow-list reads and
/// changes.
#[derive(Clone, Debug, PartialEq, Eq)]
pub struct ManageWhitelist {
    /// Who asks for the replacement.
    pub maker: Address,
    /// The list, which may be a blank record.
    pub whitelist: Whitelist,
    /// The offer that the list belongs to.
    pub offer: Offer,
    /// The address at which that offer lives.
    pub offer_key: Address,
}

/// The records that a creation reads and fills.
#[derive(Clone, Copy, Debug, PartialEq, Eq)]
pub struct CreateOffer {
    /// Who creates the offer and provides the escrow.
    pub maker: Address,
    /// The blank record that becomes the offer.
    pub offer: Offer,
    /// The address at which the offer lives.
    pub offer_key: Address,
    pub admin_config: AdminConfig,
    /// The global fee schedule, which the offer copies.
    pub fee_config: FeeConfig,
    /// The record that becomes the offer's vault.
    pub vault_token_account: EscrowVault,
    /// The asset to escrow.
    pub input_token_mint: Address,
    /// The asset wanted in return.
    pub output_token_mint: Address,
}

/// What a creation asks of the ledger, with its account.
#[derive(Clone, Copy, Debug, PartialEq, Eq)]
pub struct Creation {
    /// The maker hands the escrow to the vault.
    pub deposit: Transfer,
    pub created: OfferCreated,
}

/// The error with which the creation of an offer of `token_amount` units
/// with deadline `deadline` is refused at time `now`, or `None` where it
/// goes through; the checks are made in this order.
pub open spec fn create_rejection(ctx: &CreateOffer, token_amount: u64, deadline: i64, now: i64)
    -> Option<SwapError> {
    if ctx.offer.status != OfferStatus::Initialized {
        Some(SwapError::InvalidOfferStatus)
    } else if !ctx.admin_config.is_initialized() {
        Some(SwapError::AdminNotInitialized)
    } else if !ctx.fee_config.is_initialized() {
        Some(SwapError::FeeConfigNotInitialized)
    } else if deadline <= now {
        Some(SwapError::InvalidDeadline)
    } else if token_amount == 0 {
        Some(SwapError::InvalidAmount)
    } else if !ctx.admin_config.can_record(None, OfferStatus::Ongoing) {
        Some(ctx.admin_config.record_error(None))
    } else {
        None
    }
}

/// The offer that a creation makes.
pub open spec fn created_offer(
    ctx: &CreateOffer,
    offer_id: u64,
    token_amount: u64,
    expected_amount: u64,
    deadline: i64,
) -> Offer {
    Offer {
        offer_id,
        maker: ctx.maker,
        input_token_mint: ctx.input_token_mint,
        token_amount,
        output_token_mint: ctx.output_token_mint,
        expected_total_amount: expected_amount,
        token_amount_remaining: token_amount,
        expected_fulfilled_amount: 0,
        deadline,
        status: OfferStatus::Ongoing,
        fee_percentage: ctx.fee_config.fee_percentage,
        fee_wallet: ctx.fee_config.fee_address,
    }
}

/// The records after a creation: the offer is open with nothing taken and
/// the fee terms of the moment, its vault holds the whole escrow in the
/// offer's name, and the counters have a new open offer.
pub open spec fn after_create(
    ctx: &CreateOffer,
    offer_id: u64,
    token_amount: u64,
    expected_amount: u64,
    deadline: i64,
) -> CreateOffer {
    CreateOffer {
        offer: created_offer(ctx, offer_id, token_amount, expected_amount, deadline),
        vault_token_account: EscrowVault {
            owner: ctx.offer_key,
            mint: ctx.input_token_mint,
            amount: token_amount,
            closed: false,
        },
        admin_config: ctx.admin_config.recorded(None, OfferStatus::Ongoing),
        ..*ctx
    }
}

/// What a creation asks of the ledger.
pub open spec fn creation_of(
    ctx: &CreateOffer,
    offer_id: u64,
    token_amount: u64,
    expected_amount: u64,
    deadline: i64,
) -> Creation {
    Creation {
        deposit: Transfer {
            mint: ctx.input_token_mint,
            from: ctx.maker,
            to: ctx.offer_key,
            authority: ctx.maker,
            amount: token_amount,
        },
        created: OfferCreated {
            offer_id,
            maker: ctx.maker,
            input_token_mint: ctx.input_token_mint,
            output_token_mint: ctx.output_token_mint,
            token_amount,
            expected_amount,
            deadline,
        },
    }
}

/// Creates the offer in `ctx` at time `current_time` and escrows
/// `token_amount` units of the input asset for it.
///
/// The creation is refused, with the error that `create_rejection` names
/// and no change to any record, unless the record is blank, the
/// administrator and the fee schedule are set, the deadline lies in the
/// future and the amount is positive.
pub fn initialize_offer(
    ctx: &mut CreateOffer,
    offer_id: u64,
    token_amount: u64,
    expected_amount: u64,
    deadline: i64,
    current_time: i64,
) -> (outcome: Result<Creation, SwapError>)
    ensures
        match outcome {
            Ok(creation) => {
                &&& create_rejection(old(ctx), token_amount, deadline, current_time) is None
                &&& *final(ctx) == after_create(
                    old(ctx),
                    offer_id,
                    token_amount,
                    expected_amount,
                    deadline,
                )
                &&& creation == creation_of(
                    old(ctx),
                    offer_id,
                    token_amount,
                    expected_amount,
                    deadline,
                )
                &&& final(ctx).vault_token_account.backs(&final(ctx).offer)
                &&& final(ctx).vault_token_account.bound_to(&final(ctx).offer, final(ctx).offer_key)
                &&& old(ctx).fee_config.wf() ==> final(ctx).offer.wf()
            },
            Err(e) => {
                &&& create_rejection(old(ctx), token_amount, deadline, current_time) == Some(e)
                &&& *final(ctx) == *old(ctx)
            },
        },
        old(ctx).offer.status.is_terminal() ==> outcome == Err::<Creation, SwapError>(
            SwapError::InvalidOfferStatus,
        ),
        old(ctx).offer.status.no_later_than(final(ctx).offer.status),
        old(ctx).admin_config.wf() ==> final(ctx).admin_config.wf(),
{
    if ctx.offer.status != OfferStatus::Initialized {
        return Err(SwapError::InvalidOfferStatus);
    }
    if ctx.admin_config.admin.is_default() {
        return Err(SwapError::AdminNotInitialized);
    }
    if ctx.fee_config.fee_address.is_default() {
        return Err(SwapError::FeeConfigNotInitialized);
    }
    if deadline <= current_time {
        return Err(SwapError::InvalidDeadline);
    }
    if token_amount == 0 {
        return Err(SwapError::InvalidAmount);
    }
    match ctx.admin_config.update_offer_status(None, OfferStatus::Ongoing) {
        Ok(_) => {},
        Err(e) => {
            return Err(e);
        },
    }
    ctx.offer =
    Offer {
        offer_id,
        maker: ctx.maker,
        input_token_mint: ctx.input_token_mint,
        token_amount,
        output_token_mint: ctx.output_token_mint,
        expected_total_amount: expected_amount,
        token_amount_remaining: token_amount,
        expected_fulfilled_amount: 0,
        deadline,
        status: OfferStatus::Ongoing,
        fee_percentage: ctx.fee_config.fee_percentage,
        fee_wallet: ctx.fee_config.fee_address,
    };
    ctx.vault_token_account =
    EscrowVault {
        owner: ctx.offer_key,
        mint: ctx.input_token_mint,
        amount: token_amount,
        closed: false,
    };
    Ok(
        Creation {
            deposit: Transfer {
                mint: ctx.input_token_mint,
                from: ctx.maker,
                to: ctx.offer_key,
                authority: ctx.maker,
                amount: token_amount,
            },
            created: OfferCreated {
                offer_id,
                maker: ctx.maker,
                input_token_mint: ctx.input_token_mint,
                output_token_mint: ctx.output_token_mint,
                token_amount,
                expected_amount,
                deadline,
            },
        },
    )
}

/// The error with which the replacement of the allow-list by `takers` is
/// refused, or `None` where it goes through; the checks are made in this
/// order.
pub open spec fn manage_takers_rejection(ctx: &ManageWhitelist, takers: Seq<Address>) -> Option<
    SwapError,
> {
    if ctx.offer.maker != ctx.maker {
        Some(SwapError::UnauthorizedMaker)
    } else if takers.len() == 0 {
        Some(SwapError::EmptyTakersList)
    } else if takers.len() > MAX_WHITELIST_ENTRIES {
        Some(SwapError::WhitelistFull)
    } else {
        None
    }
}

/// Replaces the offer's allow-list by `takers`, each once and in the order
/// given, and binds the list to the offer and its maker. Only the offer's
/// maker can do so, with at least one taker and at most 50. Nothing changes
/// on failure.
pub fn manage_takers(ctx: &mut ManageWhitelist, takers: Vec<Address>) -> (outcome: Result<
    TakerUpdated,
    SwapError,
>)
    ensures
        match outcome {
            Ok(event) => {
                &&& manage_takers_rejection(old(ctx), takers@) is None
                &&& final(ctx).whitelist.maker == old(ctx).maker
                &&& final(ctx).whitelist.offer == old(ctx).offer_key
                &&& final(ctx).whitelist.takers@ == with_entries(Seq::empty(), takers@)
                &&& forall|a: Address| #[trigger]
                    final(ctx).whitelist.admits(a) <==> takers@.contains(a)
                &&& final(ctx).whitelist.wf()
                &&& event.offer_id == old(ctx).offer.offer_id
                &&& event.maker == old(ctx).maker
                &&& event.takers@ == final(ctx).whitelist.takers@
            },
            Err(e) => manage_takers_rejection(old(ctx), takers@) == Some(e) && final(ctx).whitelist
                == old(ctx).whitelist,
        },
        final(ctx).maker == old(ctx).maker,
        final(ctx).offer == old(ctx).offer,
        final(ctx).offer_key == old(ctx).offer_key,
{
    if ctx.offer.maker != ctx.maker {
        return Err(SwapError::UnauthorizedMaker);
    }
    if takers.len() == 0 {
        return Err(SwapError::EmptyTakersList);
    }
    if takers.len() > MAX_WHITELIST_ENTRIES {
        return Err(SwapError::WhitelistFull);
    }
    let mut list: Vec<Address> = Vec::new();
    add_entries(&mut list, &takers);
    proof {
        lemma_with_entries(Seq::empty(), takers@);
    }
    let copy = copy_list(&list);
    ctx.whitelist.maker = ctx.maker;
    ctx.whitelist.offer = ctx.offer_key;
    ctx.whitelist.takers = list;
    Ok(TakerUpdated { offer_id: ctx.offer.offer_id, maker: ctx.maker, takers: copy })
}

} // verus!
