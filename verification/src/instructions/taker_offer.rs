use vstd::prelude::*;
use crate::address::Address;
use crate::error::SwapError;
use crate::guarantees::{lemma_take_keeps_custody, lemma_take_keeps_offer};
use crate::state::admin::{AdminConfig, WhitelistConfig};
use crate::state::offer::{Offer, OfferStatus, MAX_FEE_BASIS_POINTS};
use crate::state::vault::EscrowVault;
use crate::state::whitelist::Whitelist;

verus! {

/// What one fill did.
#[derive(Clone, Copy, Debug, PartialEq, Eq)]
pub struct OfferTaken {
    pub offer_id: u64,
    pub maker: Address,
    pub taker: Address,
    /// How much of the escrowed asset went to the taker.
    pub input_token_amount: u64,
    /// How much of the output asset went to the maker.
    pub payment_amount: u64,
    /// How much of the output asset went to the fee wallet.
    pub fee_amount: u64,
    /// How much of the escrow is left.
    pub remaining_amount: u64,
    pub input_token_mint: Address,
    pub output_token_mint: Address,
}

/// An order to move `amount` units of the asset `mint` from the holdings of
/// `from` to those of `to`. The ledger carries it out; `authority` is the
/// identity in whose name it is made.
#[derive(Clone, Copy, Debug, PartialEq, Eq)]
pub struct Transfer {
    pub mint: Address,
    pub from: Address,
    pub to: Address,
    pub authority: Address,
    pub amount: u64,
}

/// An order to close the side records of the offer that lives at `offer`,
/// its vault, which is empty, and its allow-list, and to refund their
/// storage deposits to `refund_to`. It is made in the offer's name.
#[derive(Clone, Copy, Debug, PartialEq, Eq)]
pub struct Closing {
    pub offer: Address,
    pub refund_to: Address,
}

/// Everything a fill asks of the ledger, in the order in which it is to be
/// carried out, with the account of the fill.
#[derive(Clone, Copy, Debug, PartialEq, Eq)]
pub struct Settlement {
    /// The taker pays the fee wallet.
    pub fee: Transfer,
    /// The taker pays the maker.
    pub payment: Transfer,
    /// The vault releases the escrow to the taker.
    pub release: Transfer,
    /// Where the fill was the last one: the order to close the offer's
    /// side records.
    pub closing: Option<Closing>,
    pub taken: OfferTaken,
}

/// The records that a fill reads and changes.
#[derive(Clone, Debug, PartialEq, Eq)]
pub struct CoreAccounts {
    /// Who fills the offer.
    pub taker: Address,
    pub admin_config: AdminConfig,
    /// Whether the allow-list is binding.
    pub whitelist_config: WhitelistConfig,
    pub offer: Offer,
    /// Who the caller says the maker is.
    pub maker: Address,
    pub whitelist: Whitelist,
}

/// The custody side of a fill.
#[derive(Clone, Copy, Debug, PartialEq, Eq)]
pub struct TokenAccounts {
    pub vault_token_account: EscrowVault,
    /// The address at which the offer lives: the vault's release authority.
    pub offer: Address,
}

/// Everything a fill works on.
#[derive(Clone, Debug, PartialEq, Eq)]
pub struct TakeOffer {
    pub core: CoreAccounts,
    pub token: TokenAccounts,
}

/// Both halves of a [`TakeOffer`], borrowed.
pub struct AccountRefs<'ctx> {
    pub core: &'ctx CoreAccounts,
    pub token: &'ctx TokenAccounts,
}

/// What a taker owes in all for `input` units of the escrow: the share of
/// the asking price that `input` is of the amount escrowed at creation,
/// rounded down. The rate never depends on what has been taken already.
pub open spec fn expected_payment(offer: &Offer, input: u64) -> int {
    if offer.token_amount == 0 {
        0
    } else {
        (input * offer.expected_total_amount) / (offer.token_amount as int)
    }
}

/// The fee on a fill of `input` units: the offer's basis points of the
/// expected payment, rounded down.
pub open spec fn fee_amount(offer: &Offer, input: u64) -> int {
    (expected_payment(offer, input) * offer.fee_percentage) / (MAX_FEE_BASIS_POINTS as int)
}

/// What the maker receives for a fill of `input` units.
pub open spec fn payment_to_maker(offer: &Offer, input: u64) -> int {
    expected_payment(offer, input) - fee_amount(offer, input)
}

/// Whether the amounts of a fill of `input` units exist: the rate is
/// defined, the payment fits in 64 bits and the fee does not exceed it.
pub open spec fn payments_computable(offer: &Offer, input: u64) -> bool {
    &&& offer.token_amount != 0
    &&& expected_payment(offer, input) <= u64::MAX
    &&& fee_amount(offer, input) <= expected_payment(offer, input)
}

/// Whether the books can take the release of `input` units against a
/// payment of `payment` units to the maker: neither what remains nor the
/// maker's running total leaves its range, the vault is open and holds what
/// is to be released, and, where the release is the last one, it leaves the
/// vault empty and the counters can record the completion.
pub open spec fn release_possible(ctx: &TakeOffer, input: u64, payment: u64) -> bool {
    let offer = ctx.core.offer;
    let vault = ctx.token.vault_token_account;
    &&& input <= offer.token_amount_remaining
    &&& offer.expected_fulfilled_amount + payment <= u64::MAX
    &&& !vault.closed
    &&& input <= vault.amount
    &&& (input == offer.token_amount_remaining ==> vault.amount == input
        && ctx.core.admin_config.can_record(Some(OfferStatus::Ongoing), OfferStatus::Completed))
}

/// Whether the books can take a fill of `input` units: the amounts exist
/// and their release is possible.
pub open spec fn settlement_possible(ctx: &TakeOffer, input: u64) -> bool {
    &&& payments_computable(&ctx.core.offer, input)
    &&& 0 <= payment_to_maker(&ctx.core.offer, input) <= u64::MAX
    &&& release_possible(ctx, input, payment_to_maker(&ctx.core.offer, input) as u64)
}

/// Why the records named in `ctx` do not admit a fill at all, if they do
/// not; the checks are made in this order.
pub open spec fn account_rejection(ctx: &TakeOffer) -> Option<SwapError> {
    let offer = ctx.core.offer;
    let vault = ctx.token.vault_token_account;
    if offer.status != OfferStatus::Ongoing {
        Some(SwapError::InvalidOfferStatus)
    } else if ctx.core.maker != offer.maker {
        Some(SwapError::InvalidMaker)
    } else if ctx.core.whitelist_config.require_whitelist && !ctx.core.whitelist.admits(
        ctx.core.taker,
    ) {
        Some(SwapError::TakerNotWhitelisted)
    } else if vault.closed || vault.owner != ctx.token.offer {
        Some(SwapError::InvalidTokenAccount)
    } else if vault.mint != offer.input_token_mint {
        Some(SwapError::InvalidTokenMint)
    } else {
        None
    }
}

/// Why the offer does not admit a fill of `input` units at time `now`, if
/// it does not.
pub open spec fn condition_rejection(offer: &Offer, input: u64, now: i64) -> Option<SwapError> {
    if now > offer.deadline {
        Some(SwapError::OfferExpired)
    } else if input == 0 || input > offer.token_amount_remaining {
        Some(SwapError::InsufficientAmount)
    } else {
        None
    }
}

/// The error with which a fill of `input` units at time `now` is refused,
/// or `None` where it goes through.
pub open spec fn take_rejection(ctx: &TakeOffer, input: u64, now: i64) -> Option<SwapError> {
    if account_rejection(ctx) is Some {
        account_rejection(ctx)
    } else if condition_rejection(&ctx.core.offer, input, now) is Some {
        condition_rejection(&ctx.core.offer, input, now)
    } else if !settlement_possible(ctx, input) {
        Some(SwapError::CalculationError)
    } else {
        None
    }
}

/// The offer after the release of `input` units against a payment of
/// `payment` units to the maker. It is completed where nothing remains.
pub open spec fn offer_after_release(offer: &Offer, input: u64, payment: u64) -> Offer {
    Offer {
        token_amount_remaining: (offer.token_amount_remaining - input) as u64,
        expected_fulfilled_amount: (offer.expected_fulfilled_amount + payment) as u64,
        status: if input == offer.token_amount_remaining {
            OfferStatus::Completed
        } else {
            offer.status
        },
        ..*offer
    }
}

/// The offer after a fill of `input` units.
pub open spec fn offer_after_take(offer: &Offer, input: u64) -> Offer {
    offer_after_release(offer, input, payment_to_maker(offer, input) as u64)
}

/// The records after the release of `input` units against a payment of
/// `payment` units to the maker: the offer has moved on, the vault has
/// released `input` units and is closed if nothing remains, and a
/// completion is recorded in the counters.
pub open spec fn after_release(ctx: &TakeOffer, input: u64, payment: u64) -> TakeOffer {
    let completes = input == ctx.core.offer.token_amount_remaining;
    TakeOffer {
        core: CoreAccounts {
            offer: offer_after_release(&ctx.core.offer, input, payment),
            admin_config: if completes {
                ctx.core.admin_config.recorded(Some(OfferStatus::Ongoing), OfferStatus::Completed)
            } else {
                ctx.core.admin_config
            },
            ..ctx.core
        },
        token: TokenAccounts {
            vault_token_account: EscrowVault {
                amount: (ctx.token.vault_token_account.amount - input) as u64,
                closed: completes,
                ..ctx.token.vault_token_account
            },
            ..ctx.token
        },
    }
}

/// The records after a fill of `input` units.
pub open spec fn after_take(ctx: &TakeOffer, input: u64) -> TakeOffer {
    after_release(ctx, input, payment_to_maker(&ctx.core.offer, input) as u64)
}

/// The account of a fill of `input` units.
pub open spec fn take_receipt(ctx: &TakeOffer, input: u64) -> OfferTaken {
    let offer = ctx.core.offer;
    OfferTaken {
        offer_id: offer.offer_id,
        maker: offer.maker,
        taker: ctx.core.taker,
        input_token_amount: input,
        payment_amount: payment_to_maker(&offer, input) as u64,
        fee_amount: fee_amount(&offer, input) as u64,
        remaining_amount: (offer.token_amount_remaining - input) as u64,
        input_token_mint: offer.input_token_mint,
        output_token_mint: offer.output_token_mint,
    }
}

/// Computes the fee and the maker's payment for a fill of
/// `input_token_amount` units, with every product taken in 128 bits.
/// Fails with `CalculationError` exactly where the amounts do not exist.
pub fn calculate_payments(offer: &Offer, input_token_amount: u64) -> (amounts: Result<
    (u64, u64),
    SwapError,
>)
    ensures
        match amounts {
            Ok((fee, payment)) => {
                &&& payments_computable(offer, input_token_amount)
                &&& fee == fee_amount(offer, input_token_amount)
                &&& payment == payment_to_maker(offer, input_token_amount)
                &&& fee + payment == expected_payment(offer, input_token_amount)
            },
            Err(e) => e == SwapError::CalculationError && !payments_computable(
                offer,
                input_token_amount,
            ),
        },
{
    if offer.token_amount == 0 {
        return Err(SwapError::CalculationError);
    }
    let limit: u128 = u64::MAX as u128;
    assert(input_token_amount * offer.expected_total_amount <= limit * limit) by (nonlinear_arith)
        requires
            input_token_amount <= limit,
            offer.expected_total_amount <= limit,
    ;
    let product: u128 = (input_token_amount as u128) * (offer.expected_total_amount as u128);
    let expected: u128 = product / (offer.token_amount as u128);
    if expected > limit {
        return Err(SwapError::CalculationError);
    }
    assert(expected * offer.fee_percentage <= limit * limit) by (nonlinear_arith)
        requires
            expected <= limit,
            offer.fee_percentage <= limit,
    ;
    let fee: u128 = (expected * (offer.fee_percentage as u128)) / (MAX_FEE_BASIS_POINTS as u128);
    if fee > expected {
        return Err(SwapError::CalculationError);
    }
    Ok((fee as u64, (expected - fee) as u64))
}

impl TakeOffer {
    /// Borrows both halves at once.
    pub fn refs(&self) -> (refs: AccountRefs<'_>)
        ensures
            *refs.core == self.core,
            *refs.token == self.token,
    {
        AccountRefs { core: &self.core, token: &self.token }
    }

    /// Checks that the records fit together: the offer is open, the maker
    /// is the offer's, the taker is admitted where the allow-list binds, and
    /// the vault is the offer's open custody of the escrowed asset.
    pub fn validate(&self) -> (checked: Result<(), SwapError>)
        ensures
            match checked {
                Ok(_) => account_rejection(self) is None,
                Err(e) => account_rejection(self) == Some(e),
            },
    {
        if self.core.offer.status != OfferStatus::Ongoing {
            return Err(SwapError::InvalidOfferStatus);
        }
        if self.core.maker != self.core.offer.maker {
            return Err(SwapError::InvalidMaker);
        }
        if self.core.whitelist_config.require_whitelist && !self.core.whitelist.contains(
            &self.core.taker,
        ) {
            return Err(SwapError::TakerNotWhitelisted);
        }
        if self.token.vault_token_account.closed || self.token.vault_token_account.owner
            != self.token.offer {
            return Err(SwapError::InvalidTokenAccount);
        }
        if self.token.vault_token_account.mint != self.core.offer.input_token_mint {
            return Err(SwapError::InvalidTokenMint);
        }
        Ok(())
    }
}

/// Checks that the offer admits a fill of `input_token_amount` units at
/// time `current_time`: the deadline has not passed, and the amount is
/// positive and no more than what remains.
pub fn validate_offer_conditions(
    core: &CoreAccounts,
    input_token_amount: u64,
    current_time: i64,
) -> (checked: Result<(), SwapError>)
    ensures
        match checked {
            Ok(_) => condition_rejection(&core.offer, input_token_amount, current_time) is None,
            Err(e) => condition_rejection(&core.offer, input_token_amount, current_time) == Some(
                e,
            ),
        },
{
    if current_time > core.offer.deadline {
        return Err(SwapError::OfferExpired);
    }
    if input_token_amount == 0 || input_token_amount > core.offer.token_amount_remaining {
        return Err(SwapError::InsufficientAmount);
    }
    Ok(())
}

/// The transfer that pays the fee of a fill: `amount` units of the output
/// asset from the taker to the offer's fee wallet.
pub open spec fn fee_transfer(core: &CoreAccounts, amount: u64) -> Transfer {
    Transfer {
        mint: core.offer.output_token_mint,
        from: core.taker,
        to: core.offer.fee_wallet,
        authority: core.taker,
        amount,
    }
}

/// The transfer that pays the maker: `amount` units of the output asset
/// from the taker to the offer's maker.
pub open spec fn maker_transfer(core: &CoreAccounts, amount: u64) -> Transfer {
    Transfer {
        mint: core.offer.output_token_mint,
        from: core.taker,
        to: core.offer.maker,
        authority: core.taker,
        amount,
    }
}

/// The transfer that releases `amount` units of the escrow to the taker.
/// It is made in the name of the offer itself: no key can make it.
pub open spec fn vault_release(ctx: &TakeOffer, amount: u64) -> Transfer {
    Transfer {
        mint: ctx.core.offer.input_token_mint,
        from: ctx.token.offer,
        to: ctx.core.taker,
        authority: ctx.token.offer,
        amount,
    }
}

/// Orders the two payments of a fill, the fee first and the maker's
/// payment second, both in the output asset and in the taker's name.
pub fn process_payments(refs: AccountRefs<'_>, fee_amount: u64, payment_amount: u64) -> (orders: (
    Transfer,
    Transfer,
))
    ensures
        orders.0 == fee_transfer(refs.core, fee_amount),
        orders.1 == maker_transfer(refs.core, payment_amount),
{
    let offer = &refs.core.offer;
    let to_fee_wallet = Transfer {
        mint: offer.output_token_mint,
        from: refs.core.taker,
        to: offer.fee_wallet,
        authority: refs.core.taker,
        amount: fee_amount,
    };
    let to_maker = Transfer {
        mint: offer.output_token_mint,
        from: refs.core.taker,
        to: offer.maker,
        authority: refs.core.taker,
        amount: payment_amount,
    };
    (to_fee_wallet, to_maker)
}

/// Books one fill whose amounts are known: takes `input_token_amount` out
/// of what remains and out of the vault, adds `payment_amount` to what the
/// maker has received, and, where nothing remains, closes the empty vault,
/// completes the offer and records the completion. Returns the order that
/// releases the escrow to the taker, and the account of the fill.
///
/// Every subtraction and addition is checked: where the books cannot take
/// the fill the call fails with `CalculationError` and changes nothing.
pub fn handle_vault_transfer_and_completion(
    ctx: &mut TakeOffer,
    input_token_amount: u64,
    fee_amount: u64,
    payment_amount: u64,
) -> (booked: Result<(Transfer, OfferTaken), SwapError>)
    ensures
        match booked {
            Ok((release, taken)) => {
                &&& release_possible(old(ctx), input_token_amount, payment_amount)
                &&& *final(ctx) == after_release(old(ctx), input_token_amount, payment_amount)
                &&& release == vault_release(old(ctx), input_token_amount)
                &&& taken == (OfferTaken {
                    offer_id: old(ctx).core.offer.offer_id,
                    maker: old(ctx).core.offer.maker,
                    taker: old(ctx).core.taker,
                    input_token_amount,
                    payment_amount,
                    fee_amount,
                    remaining_amount: final(ctx).core.offer.token_amount_remaining,
                    input_token_mint: old(ctx).core.offer.input_token_mint,
                    output_token_mint: old(ctx).core.offer.output_token_mint,
                })
            },
            Err(e) => {
                &&& e == SwapError::CalculationError
                &&& !release_possible(old(ctx), input_token_amount, payment_amount)
                &&& *final(ctx) == *old(ctx)
            },
        },
{
    let current_amount = ctx.core.offer.token_amount_remaining;
    let current_fulfilled_amount = ctx.core.offer.expected_fulfilled_amount;
    let held = ctx.token.vault_token_account.amount;
    if ctx.token.vault_token_account.closed {
        return Err(SwapError::CalculationError);
    }
    if input_token_amount > current_amount {
        return Err(SwapError::CalculationError);
    }
    let new_remaining: u64 = current_amount - input_token_amount;
    if payment_amount > u64::MAX - current_fulfilled_amount {
        return Err(SwapError::CalculationError);
    }
    let new_fulfilled: u64 = current_fulfilled_amount + payment_amount;
    if input_token_amount > held {
        return Err(SwapError::CalculationError);
    }
    let new_held: u64 = held - input_token_amount;
    let release = Transfer {
        mint: ctx.core.offer.input_token_mint,
        from: ctx.token.offer,
        to: ctx.core.taker,
        authority: ctx.token.offer,
        amount: input_token_amount,
    };
    if new_remaining == 0 {
        if new_held != 0 {
            return Err(SwapError::CalculationError);
        }
        match ctx.core.admin_config.update_offer_status(
            Some(OfferStatus::Ongoing),
            OfferStatus::Completed,
        ) {
            Ok(_) => {},
            Err(_) => {
                return Err(SwapError::CalculationError);
            },
        }
        ctx.token.vault_token_account.closed = true;
        ctx.core.offer.status = OfferStatus::Completed;
    }
    ctx.core.offer.token_amount_remaining = new_remaining;
    ctx.core.offer.expected_fulfilled_amount = new_fulfilled;
    ctx.token.vault_token_account.amount = new_held;
    let taken = OfferTaken {
        offer_id: ctx.core.offer.offer_id,
        maker: ctx.core.offer.maker,
        taker: ctx.core.taker,
        input_token_amount,
        payment_amount,
        fee_amount,
        remaining_amount: new_remaining,
        input_token_mint: ctx.core.offer.input_token_mint,
        output_token_mint: ctx.core.offer.output_token_mint,
    };
    Ok((release, taken))
}

/// Everything a fill of `input` units asks of the ledger.
pub open spec fn settlement_of(ctx: &TakeOffer, input: u64) -> Settlement {
    Settlement {
        fee: fee_transfer(&ctx.core, fee_amount(&ctx.core.offer, input) as u64),
        payment: maker_transfer(&ctx.core, payment_to_maker(&ctx.core.offer, input) as u64),
        release: vault_release(ctx, input),
        closing: if input == ctx.core.offer.token_amount_remaining {
            Some(Closing { offer: ctx.token.offer, refund_to: ctx.core.offer.maker })
        } else {
            None
        },
        taken: take_receipt(ctx, input),
    }
}

/// Fills the offer in `ctx` with `input_token_amount` units at time
/// `current_time`.
///
/// The fill is refused, with the error that `take_rejection` names and no
/// change to any record, where the records do not fit together, the
/// deadline has passed, the amount is zero or more than what remains, or
/// the books cannot take it. Otherwise the taker owes the share of the
/// asking price that the amount is of what was escrowed at creation, split
/// between the fee wallet and the maker; the offer, the vault and the
/// counters move on as `after_take` says, and the orders for the ledger
/// come back. The fill that takes the last of the escrow completes the
/// offer and orders its vault and allow-list closed in the maker's favour.
pub fn process(ctx: &mut TakeOffer, input_token_amount: u64, current_time: i64) -> (settled: Result<
    Settlement,
    SwapError,
>)
    ensures
        match settled {
            Ok(settlement) => {
                &&& take_rejection(old(ctx), input_token_amount, current_time) is None
                &&& *final(ctx) == after_take(old(ctx), input_token_amount)
                &&& settlement == settlement_of(old(ctx), input_token_amount)
                &&& settlement.fee.amount + settlement.payment.amount == expected_payment(
                    &old(ctx).core.offer,
                    input_token_amount,
                )
            },
            Err(e) => {
                &&& take_rejection(old(ctx), input_token_amount, current_time) == Some(e)
                &&& *final(ctx) == *old(ctx)
            },
        },
        old(ctx).core.offer.status.is_terminal() ==> settled == Err::<Settlement, SwapError>(
            SwapError::InvalidOfferStatus,
        ),
        final(ctx).core.offer.token_amount_remaining <= old(ctx).core.offer.token_amount_remaining,
        final(ctx).core.offer.expected_fulfilled_amount >= old(
            ctx,
        ).core.offer.expected_fulfilled_amount,
        old(ctx).core.offer.status.no_later_than(final(ctx).core.offer.status),
        old(ctx).core.offer.wf() ==> final(ctx).core.offer.wf(),
        old(ctx).core.admin_config.wf() ==> final(ctx).core.admin_config.wf(),
        old(ctx).token.vault_token_account.backs(&old(ctx).core.offer) ==> final(
            ctx
        ).token.vault_token_account.backs(&final(ctx).core.offer),
{
    match ctx.validate() {
        Ok(_) => {},
        Err(e) => {
            return Err(e);
        },
    }
    match validate_offer_conditions(&ctx.core, input_token_amount, current_time) {
        Ok(_) => {},
        Err(e) => {
            return Err(e);
        },
    }
    let (fee, payment) = match calculate_payments(&ctx.core.offer, input_token_amount) {
        Ok(amounts) => amounts,
        Err(e) => {
            return Err(e);
        },
    };
    let (to_fee_wallet, to_maker) = process_payments(ctx.refs(), fee, payment);
    let (release, taken) = match handle_vault_transfer_and_completion(
        ctx,
        input_token_amount,
        fee,
        payment,
    ) {
        Ok(booked) => booked,
        Err(e) => {
            return Err(e);
        },
    };
    proof {
        lemma_take_keeps_offer(old(ctx), input_token_amount, current_time);
        if old(ctx).token.vault_token_account.backs(&old(ctx).core.offer) {
            lemma_take_keeps_custody(old(ctx), input_token_amount, current_time);
        }
    }
    let closing = if taken.remaining_amount == 0 {
        Some(Closing { offer: ctx.token.offer, refund_to: ctx.core.offer.maker })
    } else {
        None
    };
    Ok(Settlement { fee: to_fee_wallet, payment: to_maker, release, closing, taken })
}

} // verus!
