use swap::address::Address;
use swap::error::SwapError;
use swap::instructions::cancel_offer::{update_cancel_offer, CancelOffer, CancellationReason};
use swap::instructions::create_offer::{initialize_offer, CreateOffer};
use swap::instructions::expire_offer::{update_expire_offer, CheckExpiredOffer};
use swap::instructions::taker_offer::{
    handle_vault_transfer_and_completion, process, process_payments, validate_offer_conditions,
    Closing, CoreAccounts, TakeOffer, TokenAccounts, Transfer,
};
use swap::state::admin::{AdminConfig, FeeConfig, WhitelistConfig};
use swap::state::offer::{Offer, OfferStatus};
use swap::state::vault::EscrowVault;
use swap::state::whitelist::Whitelist;

fn addr(n: u8) -> Address {
    Address { bytes: [n; 32] }
}

const ADMIN: u8 = 1;
const MAKER: u8 = 2;
const TAKER: u8 = 3;
const FEE_WALLET: u8 = 4;
const MINT_IN: u8 = 5;
const MINT_OUT: u8 = 6;
const OFFER_KEY: u8 = 7;
const STRANGER: u8 = 9;

fn admin_config() -> AdminConfig {
    AdminConfig {
        admin: addr(ADMIN),
        total_offers: 0,
        active_offers: 0,
        completed_offers: 0,
        cancelled_offers: 0,
        expired_offers: 0,
        last_expiry_check: 0,
    }
}

fn blank_vault() -> EscrowVault {
    EscrowVault { owner: Address::default(), mint: Address::default(), amount: 0, closed: false }
}

fn creation(fee_percentage: u64) -> CreateOffer {
    CreateOffer {
        maker: addr(MAKER),
        offer: Offer::blank(),
        offer_key: addr(OFFER_KEY),
        admin_config: admin_config(),
        fee_config: FeeConfig { fee_percentage, fee_address: addr(FEE_WALLET) },
        vault_token_account: blank_vault(),
        input_token_mint: addr(MINT_IN),
        output_token_mint: addr(MINT_OUT),
    }
}

/// An open offer of 1000 for 2000 at 1%, deadline 100, created at time 10.
fn open_offer() -> CreateOffer {
    let mut ctx = creation(100);
    initialize_offer(&mut ctx, 42, 1000, 2000, 100, 10).unwrap();
    ctx
}

fn taking(created: &CreateOffer, taker: u8, require_whitelist: bool, takers: Vec<Address>) -> TakeOffer {
    TakeOffer {
        core: CoreAccounts {
            taker: addr(taker),
            admin_config: created.admin_config,
            whitelist_config: WhitelistConfig { require_whitelist },
            offer: created.offer,
            maker: created.offer.maker,
            whitelist: Whitelist { maker: created.offer.maker, offer: created.offer_key, takers },
        },
        token: TokenAccounts {
            vault_token_account: created.vault_token_account,
            offer: created.offer_key,
        },
    }
}

fn cancelling(created: &CreateOffer, caller: u8) -> CancelOffer {
    CancelOffer {
        caller: addr(caller),
        offer: created.offer,
        offer_key: created.offer_key,
        vault_token_account: created.vault_token_account,
        admin_config: created.admin_config,
    }
}

fn expiring(created: &CreateOffer, admin: u8) -> CheckExpiredOffer {
    CheckExpiredOffer { admin_config: created.admin_config, admin: addr(admin), offer: created.offer }
}

#[test]
fn creation_opens_offer_and_fills_vault() {
    let mut ctx = creation(100);
    let made = initialize_offer(&mut ctx, 42, 1000, 2000, 100, 10).unwrap();
    assert_eq!(
        ctx.offer,
        Offer {
            offer_id: 42,
            maker: addr(MAKER),
            input_token_mint: addr(MINT_IN),
            token_amount: 1000,
            output_token_mint: addr(MINT_OUT),
            expected_total_amount: 2000,
            token_amount_remaining: 1000,
            expected_fulfilled_amount: 0,
            deadline: 100,
            status: OfferStatus::Ongoing,
            fee_percentage: 100,
            fee_wallet: addr(FEE_WALLET),
        }
    );
    assert_eq!(
        ctx.vault_token_account,
        EscrowVault { owner: addr(OFFER_KEY), mint: addr(MINT_IN), amount: 1000, closed: false }
    );
    assert_eq!(ctx.admin_config.total_offers, 1);
    assert_eq!(ctx.admin_config.active_offers, 1);
    assert_eq!(
        made.deposit,
        Transfer {
            mint: addr(MINT_IN),
            from: addr(MAKER),
            to: addr(OFFER_KEY),
            authority: addr(MAKER),
            amount: 1000,
        }
    );
    assert_eq!(made.created.offer_id, 42);
    assert_eq!(made.created.maker, addr(MAKER));
    assert_eq!(made.created.token_amount, 1000);
    assert_eq!(made.created.expected_amount, 2000);
    assert_eq!(made.created.deadline, 100);
    assert_eq!(made.created.input_token_mint, addr(MINT_IN));
    assert_eq!(made.created.output_token_mint, addr(MINT_OUT));
}

#[test]
fn creation_rejects_deadline_not_in_future() {
    let mut ctx = creation(100);
    let before = ctx;
    assert_eq!(initialize_offer(&mut ctx, 1, 1000, 2000, 10, 10), Err(SwapError::InvalidDeadline));
    assert_eq!(initialize_offer(&mut ctx, 1, 1000, 2000, 9, 10), Err(SwapError::InvalidDeadline));
    assert_eq!(ctx, before);
    assert!(initialize_offer(&mut ctx, 1, 1000, 2000, 11, 10).is_ok());
}

#[test]
fn creation_rejects_zero_amount() {
    let mut ctx = creation(100);
    let before = ctx;
    assert_eq!(initialize_offer(&mut ctx, 1, 0, 2000, 100, 10), Err(SwapError::InvalidAmount));
    assert_eq!(ctx, before);
}

#[test]
fn creation_checks_deadline_before_amount() {
    let mut ctx = creation(100);
    assert_eq!(initialize_offer(&mut ctx, 1, 0, 2000, 10, 10), Err(SwapError::InvalidDeadline));
}

#[test]
fn creation_needs_administrator() {
    let mut ctx = creation(100);
    ctx.admin_config.admin = Address::default();
    assert_eq!(
        initialize_offer(&mut ctx, 1, 1000, 2000, 100, 10),
        Err(SwapError::AdminNotInitialized)
    );
}

#[test]
fn creation_needs_fee_wallet() {
    let mut ctx = creation(100);
    ctx.fee_config.fee_address = Address::default();
    assert_eq!(
        initialize_offer(&mut ctx, 1, 1000, 2000, 100, 10),
        Err(SwapError::FeeConfigNotInitialized)
    );
}

#[test]
fn creation_on_existing_offer_is_refused() {
    let mut ctx = open_offer();
    let before = ctx;
    assert_eq!(
        initialize_offer(&mut ctx, 43, 5, 5, 1000, 10),
        Err(SwapError::InvalidOfferStatus)
    );
    assert_eq!(ctx, before);
}

#[test]
fn creation_with_full_offer_count_is_sequence_overflow() {
    let mut ctx = creation(100);
    ctx.admin_config.total_offers = u64::MAX;
    let before = ctx;
    assert_eq!(
        initialize_offer(&mut ctx, 1, 1000, 2000, 100, 10),
        Err(SwapError::SequenceOverflow)
    );
    assert_eq!(ctx, before);
}

#[test]
fn fee_terms_are_copied_at_creation() {
    let mut ctx = creation(100);
    initialize_offer(&mut ctx, 42, 1000, 2000, 100, 10).unwrap();
    // the global schedule changes afterwards
    ctx.fee_config.fee_percentage = 5000;
    ctx.fee_config.fee_address = addr(STRANGER);
    let mut take = taking(&ctx, TAKER, false, vec![]);
    let settled = process(&mut take, 500, 20).unwrap();
    assert_eq!(settled.taken.fee_amount, 10);
    assert_eq!(settled.fee.to, addr(FEE_WALLET));
}

#[test]
fn two_half_fills_complete_the_offer() {
    let created = open_offer();
    let mut take = taking(&created, TAKER, false, vec![]);

    let first = process(&mut take, 500, 20).unwrap();
    assert_eq!(first.taken.fee_amount, 10);
    assert_eq!(first.taken.payment_amount, 990);
    assert_eq!(first.taken.remaining_amount, 500);
    assert_eq!(first.taken.input_token_amount, 500);
    assert_eq!(first.closing, None);
    assert_eq!(take.core.offer.token_amount_remaining, 500);
    assert_eq!(take.core.offer.expected_fulfilled_amount, 990);
    assert_eq!(take.core.offer.status, OfferStatus::Ongoing);
    assert_eq!(take.token.vault_token_account.amount, 500);
    assert!(!take.token.vault_token_account.closed);
    assert_eq!(take.core.admin_config.active_offers, 1);
    assert_eq!(take.core.admin_config.completed_offers, 0);

    let second = process(&mut take, 500, 21).unwrap();
    assert_eq!(second.taken.fee_amount, 10);
    assert_eq!(second.taken.payment_amount, 990);
    assert_eq!(second.taken.remaining_amount, 0);
    assert_eq!(
        second.closing,
        Some(Closing { offer: addr(OFFER_KEY), refund_to: addr(MAKER) })
    );
    assert_eq!(take.core.offer.token_amount_remaining, 0);
    assert_eq!(take.core.offer.expected_fulfilled_amount, 1980);
    assert_eq!(take.core.offer.status, OfferStatus::Completed);
    assert_eq!(take.core.offer.token_amount, 1000);
    assert_eq!(take.token.vault_token_account.amount, 0);
    assert!(take.token.vault_token_account.closed);
    assert_eq!(take.core.admin_config.active_offers, 0);
    assert_eq!(take.core.admin_config.completed_offers, 1);
    assert_eq!(take.core.admin_config.total_offers, 1);
}

#[test]
fn fill_orders_three_transfers() {
    let created = open_offer();
    let mut take = taking(&created, TAKER, false, vec![]);
    let settled = process(&mut take, 500, 20).unwrap();
    assert_eq!(
        settled.fee,
        Transfer {
            mint: addr(MINT_OUT),
            from: addr(TAKER),
            to: addr(FEE_WALLET),
            authority: addr(TAKER),
            amount: 10,
        }
    );
    assert_eq!(
        settled.payment,
        Transfer {
            mint: addr(MINT_OUT),
            from: addr(TAKER),
            to: addr(MAKER),
            authority: addr(TAKER),
            amount: 990,
        }
    );
    assert_eq!(
        settled.release,
        Transfer {
            mint: addr(MINT_IN),
            from: addr(OFFER_KEY),
            to: addr(TAKER),
            authority: addr(OFFER_KEY),
            amount: 500,
        }
    );
    assert_eq!(settled.taken.offer_id, 42);
    assert_eq!(settled.taken.maker, addr(MAKER));
    assert_eq!(settled.taken.taker, addr(TAKER));
    assert_eq!(settled.taken.input_token_mint, addr(MINT_IN));
    assert_eq!(settled.taken.output_token_mint, addr(MINT_OUT));
}

#[test]
fn fill_of_more_than_remains_is_insufficient_amount() {
    let created = open_offer();
    let mut take = taking(&created, TAKER, false, vec![]);
    process(&mut take, 400, 20).unwrap();
    let before = take.clone();
    let remaining = take.core.offer.token_amount_remaining;
    assert_eq!(process(&mut take, remaining + 1, 20), Err(SwapError::InsufficientAmount));
    assert_eq!(take, before);
    assert!(process(&mut take, remaining, 20).is_ok());
}

#[test]
fn fill_of_nothing_is_insufficient_amount() {
    let created = open_offer();
    let mut take = taking(&created, TAKER, false, vec![]);
    let before = take.clone();
    assert_eq!(process(&mut take, 0, 20), Err(SwapError::InsufficientAmount));
    assert_eq!(take, before);
}

#[test]
fn fill_after_deadline_is_offer_expired() {
    let created = open_offer();
    let mut take = taking(&created, TAKER, false, vec![]);
    let before = take.clone();
    assert_eq!(process(&mut take, 500, 101), Err(SwapError::OfferExpired));
    assert_eq!(take, before);
    // the deadline itself is still in time
    assert!(process(&mut take, 500, 100).is_ok());
}

#[test]
fn fill_checks_deadline_before_amount() {
    let created = open_offer();
    let mut take = taking(&created, TAKER, false, vec![]);
    assert_eq!(process(&mut take, 5000, 101), Err(SwapError::OfferExpired));
}

#[test]
fn fill_with_wrong_maker_is_invalid_maker() {
    let created = open_offer();
    let mut take = taking(&created, TAKER, false, vec![]);
    take.core.maker = addr(STRANGER);
    let before = take.clone();
    assert_eq!(process(&mut take, 500, 20), Err(SwapError::InvalidMaker));
    assert_eq!(take, before);
}

#[test]
fn fill_from_foreign_vault_is_invalid_token_account() {
    let created = open_offer();
    let mut take = taking(&created, TAKER, false, vec![]);
    take.token.vault_token_account.owner = addr(STRANGER);
    assert_eq!(process(&mut take, 500, 20), Err(SwapError::InvalidTokenAccount));
    let mut take = taking(&created, TAKER, false, vec![]);
    take.token.vault_token_account.closed = true;
    assert_eq!(process(&mut take, 500, 20), Err(SwapError::InvalidTokenAccount));
}

#[test]
fn fill_from_vault_of_other_asset_is_invalid_token_mint() {
    let created = open_offer();
    let mut take = taking(&created, TAKER, false, vec![]);
    take.token.vault_token_account.mint = addr(MINT_OUT);
    let before = take.clone();
    assert_eq!(process(&mut take, 500, 20), Err(SwapError::InvalidTokenMint));
    assert_eq!(take, before);
}

#[test]
fn fill_from_short_vault_is_calculation_error() {
    let created = open_offer();
    let mut take = taking(&created, TAKER, false, vec![]);
    take.token.vault_token_account.amount = 499;
    let before = take.clone();
    assert_eq!(process(&mut take, 500, 20), Err(SwapError::CalculationError));
    assert_eq!(take, before);
}

#[test]
fn last_fill_must_empty_the_vault() {
    let created = open_offer();
    let mut take = taking(&created, TAKER, false, vec![]);
    take.token.vault_token_account.amount = 1001;
    let before = take.clone();
    assert_eq!(process(&mut take, 1000, 20), Err(SwapError::CalculationError));
    assert_eq!(take, before);
    // a partial fill does not close the vault and goes through
    assert!(process(&mut take, 1, 20).is_ok());
    assert_eq!(take.token.vault_token_account.amount, 1000);
}

#[test]
fn fill_with_zero_denominator_is_calculation_error() {
    let created = open_offer();
    let mut take = taking(&created, TAKER, false, vec![]);
    take.core.offer.token_amount = 0;
    assert_eq!(process(&mut take, 500, 20), Err(SwapError::CalculationError));
}

#[test]
fn fill_on_terminal_offer_is_invalid_offer_status() {
    for status in [OfferStatus::Completed, OfferStatus::Cancelled, OfferStatus::Expired] {
        let created = open_offer();
        let mut take = taking(&created, TAKER, false, vec![]);
        take.core.offer.status = status;
        let before = take.clone();
        assert_eq!(process(&mut take, 500, 20), Err(SwapError::InvalidOfferStatus));
        assert_eq!(take, before);
    }
}

#[test]
fn fill_on_unopened_offer_is_invalid_offer_status() {
    for status in [OfferStatus::Initialized, OfferStatus::VaultInitialized] {
        let created = open_offer();
        let mut take = taking(&created, TAKER, false, vec![]);
        take.core.offer.status = status;
        assert_eq!(process(&mut take, 500, 20), Err(SwapError::InvalidOfferStatus));
    }
}

#[test]
fn remaining_never_rises_and_fulfilled_never_falls() {
    let created = open_offer();
    let mut take = taking(&created, TAKER, false, vec![]);
    let mut taken_in_all = 0u64;
    for (amount, now) in [(1u64, 11i64), (0, 12), (333, 13), (2000, 14), (600, 15), (66, 200), (66, 16)] {
        let before = take.core.offer;
        let outcome = process(&mut take, amount, now);
        let after = take.core.offer;
        assert!(after.token_amount_remaining <= before.token_amount_remaining);
        assert!(after.expected_fulfilled_amount >= before.expected_fulfilled_amount);
        assert_eq!(after.token_amount, 1000);
        if outcome.is_ok() {
            taken_in_all += amount;
        } else {
            assert_eq!(after, before);
        }
        assert!(taken_in_all <= 1000);
        assert_eq!(taken_in_all + after.token_amount_remaining, 1000);
        assert_eq!(take.token.vault_token_account.amount, after.token_amount_remaining);
    }
    assert_eq!(taken_in_all, 1000);
    assert_eq!(take.core.offer.status, OfferStatus::Completed);
    assert!(take.core.offer.expected_fulfilled_amount <= 2000);
}

#[test]
fn conditions_are_checked_on_their_own() {
    let created = open_offer();
    let take = taking(&created, TAKER, false, vec![]);
    assert_eq!(validate_offer_conditions(&take.core, 1000, 100), Ok(()));
    assert_eq!(validate_offer_conditions(&take.core, 1000, 101), Err(SwapError::OfferExpired));
    assert_eq!(validate_offer_conditions(&take.core, 1001, 100), Err(SwapError::InsufficientAmount));
    assert_eq!(validate_offer_conditions(&take.core, 0, 100), Err(SwapError::InsufficientAmount));
}

#[test]
fn records_are_checked_on_their_own() {
    let created = open_offer();
    let take = taking(&created, TAKER, false, vec![]);
    assert_eq!(take.validate(), Ok(()));
    let refs = take.refs();
    assert_eq!(refs.core, &take.core);
    assert_eq!(refs.token, &take.token);
}

#[test]
fn payments_go_to_fee_wallet_then_maker() {
    let created = open_offer();
    let take = taking(&created, TAKER, false, vec![]);
    let (fee, payment) = process_payments(take.refs(), 7, 93);
    assert_eq!(fee.amount, 7);
    assert_eq!(fee.to, addr(FEE_WALLET));
    assert_eq!(fee.from, addr(TAKER));
    assert_eq!(fee.mint, addr(MINT_OUT));
    assert_eq!(payment.amount, 93);
    assert_eq!(payment.to, addr(MAKER));
    assert_eq!(payment.from, addr(TAKER));
    assert_eq!(payment.mint, addr(MINT_OUT));
}

#[test]
fn booking_checks_every_sum() {
    let created = open_offer();
    let mut take = taking(&created, TAKER, false, vec![]);
    let before = take.clone();
    // more than remains
    assert_eq!(
        handle_vault_transfer_and_completion(&mut take, 1001, 0, 0),
        Err(SwapError::CalculationError)
    );
    assert_eq!(take, before);
    // the maker's running total would overflow
    take.core.offer.expected_fulfilled_amount = u64::MAX;
    assert_eq!(
        handle_vault_transfer_and_completion(&mut take, 10, 0, 1),
        Err(SwapError::CalculationError)
    );
    take.core.offer.expected_fulfilled_amount = 0;
    // a closed vault releases nothing
    take.token.vault_token_account.closed = true;
    assert_eq!(
        handle_vault_transfer_and_completion(&mut take, 10, 0, 1),
        Err(SwapError::CalculationError)
    );
    take.token.vault_token_account.closed = false;
    // no open offer is counted, so the completion cannot be recorded
    take.core.admin_config.active_offers = 0;
    assert_eq!(
        handle_vault_transfer_and_completion(&mut take, 1000, 20, 1980),
        Err(SwapError::CalculationError)
    );
    take.core.admin_config.active_offers = 1;
    let (release, taken) = handle_vault_transfer_and_completion(&mut take, 250, 5, 495).unwrap();
    assert_eq!(release.amount, 250);
    assert_eq!(release.from, addr(OFFER_KEY));
    assert_eq!(release.to, addr(TAKER));
    assert_eq!(taken.remaining_amount, 750);
    assert_eq!(taken.fee_amount, 5);
    assert_eq!(taken.payment_amount, 495);
    assert_eq!(take.core.offer.token_amount_remaining, 750);
    assert_eq!(take.core.offer.expected_fulfilled_amount, 495);
    assert_eq!(take.token.vault_token_account.amount, 750);
}

#[test]
fn stranger_cannot_cancel_before_deadline_but_can_after() {
    let created = open_offer();
    let mut cancel = cancelling(&created, STRANGER);
    let before = cancel;
    assert_eq!(update_cancel_offer(&mut cancel, 100), Err(SwapError::CannotCancelOffer));
    assert_eq!(cancel, before);

    let done = update_cancel_offer(&mut cancel, 101).unwrap();
    assert_eq!(done.refund.amount, 1000);
    assert_eq!(done.refund.to, addr(MAKER));
    assert_eq!(done.refund.from, addr(OFFER_KEY));
    assert_eq!(done.refund.authority, addr(OFFER_KEY));
    assert_eq!(done.refund.mint, addr(MINT_IN));
    assert_eq!(done.closing, Closing { offer: addr(OFFER_KEY), refund_to: addr(MAKER) });
    assert_eq!(done.cancelled.token_amount, 1000);
    assert_eq!(done.cancelled.reason, CancellationReason::Expired);
    assert_eq!(done.cancelled.timestamp, 101);
    assert_eq!(done.cancelled.maker, addr(MAKER));
    assert_eq!(done.cancelled.offer_id, 42);
    assert_eq!(cancel.offer.status, OfferStatus::Cancelled);
    assert_eq!(cancel.vault_token_account.amount, 0);
    assert!(cancel.vault_token_account.closed);
    assert_eq!(cancel.admin_config.active_offers, 0);
    assert_eq!(cancel.admin_config.cancelled_offers, 1);
}

#[test]
fn maker_cancels_before_deadline() {
    let created = open_offer();
    let mut cancel = cancelling(&created, MAKER);
    let done = update_cancel_offer(&mut cancel, 50).unwrap();
    assert_eq!(done.cancelled.reason, CancellationReason::MakerCancelled);
    assert_eq!(done.refund.amount, 1000);
    assert_eq!(cancel.offer.status, OfferStatus::Cancelled);
}

#[test]
fn cancel_after_partial_fill_refunds_what_remains() {
    let created = open_offer();
    let mut take = taking(&created, TAKER, false, vec![]);
    process(&mut take, 300, 20).unwrap();
    let mut cancel = CancelOffer {
        caller: addr(MAKER),
        offer: take.core.offer,
        offer_key: addr(OFFER_KEY),
        vault_token_account: take.token.vault_token_account,
        admin_config: take.core.admin_config,
    };
    let done = update_cancel_offer(&mut cancel, 30).unwrap();
    assert_eq!(done.refund.amount, 700);
    assert_eq!(cancel.offer.token_amount_remaining, 700);
    assert_eq!(cancel.offer.expected_fulfilled_amount, 594);
}

#[test]
fn cancel_on_terminal_offer_is_invalid_offer_status() {
    for status in [OfferStatus::Completed, OfferStatus::Cancelled, OfferStatus::Expired] {
        let created = open_offer();
        let mut cancel = cancelling(&created, MAKER);
        cancel.offer.status = status;
        let before = cancel;
        assert_eq!(update_cancel_offer(&mut cancel, 500), Err(SwapError::InvalidOfferStatus));
        assert_eq!(cancel, before);
    }
}

#[test]
fn cancel_twice_is_refused() {
    let created = open_offer();
    let mut cancel = cancelling(&created, MAKER);
    update_cancel_offer(&mut cancel, 50).unwrap();
    let before = cancel;
    assert_eq!(update_cancel_offer(&mut cancel, 51), Err(SwapError::InvalidOfferStatus));
    assert_eq!(cancel, before);
}

#[test]
fn cancel_checks_the_vault() {
    let created = open_offer();
    let mut cancel = cancelling(&created, MAKER);
    cancel.vault_token_account.owner = addr(STRANGER);
    assert_eq!(update_cancel_offer(&mut cancel, 50), Err(SwapError::InvalidTokenAccount));
    let mut cancel = cancelling(&created, MAKER);
    cancel.vault_token_account.mint = addr(MINT_OUT);
    assert_eq!(update_cancel_offer(&mut cancel, 50), Err(SwapError::InvalidTokenMint));
    let mut cancel = cancelling(&created, MAKER);
    cancel.vault_token_account.amount = 999;
    assert_eq!(update_cancel_offer(&mut cancel, 50), Err(SwapError::CalculationError));
}

#[test]
fn administrator_marks_expired_after_deadline() {
    let created = open_offer();
    let mut expire = expiring(&created, ADMIN);
    let before = expire;
    assert_eq!(update_expire_offer(&mut expire, 100), Err(SwapError::OfferNotExpired));
    assert_eq!(expire, before);
    assert_eq!(update_expire_offer(&mut expire, 101), Ok(()));
    assert_eq!(expire.offer.status, OfferStatus::Expired);
    assert_eq!(expire.offer.token_amount_remaining, 1000);
    assert_eq!(expire.admin_config.active_offers, 0);
    assert_eq!(expire.admin_config.expired_offers, 1);
    assert_eq!(expire.admin_config.last_expiry_check, 101);
}

#[test]
fn only_administrator_marks_expired() {
    let created = open_offer();
    let mut expire = expiring(&created, MAKER);
    let before = expire;
    assert_eq!(update_expire_offer(&mut expire, 101), Err(SwapError::UnauthorizedAdmin));
    assert_eq!(expire, before);
}

#[test]
fn expire_on_terminal_offer_is_invalid_offer_status() {
    for status in [OfferStatus::Completed, OfferStatus::Cancelled, OfferStatus::Expired] {
        let created = open_offer();
        let mut expire = expiring(&created, ADMIN);
        expire.offer.status = status;
        let before = expire;
        assert_eq!(update_expire_offer(&mut expire, 500), Err(SwapError::InvalidOfferStatus));
        assert_eq!(expire, before);
    }
}

#[test]
fn expired_offer_is_frozen() {
    let created = open_offer();
    let mut expire = expiring(&created, ADMIN);
    update_expire_offer(&mut expire, 101).unwrap();
    let mut frozen = created;
    frozen.offer = expire.offer;
    frozen.admin_config = expire.admin_config;
    let mut take = taking(&frozen, TAKER, false, vec![]);
    assert_eq!(process(&mut take, 1, 50), Err(SwapError::InvalidOfferStatus));
    let mut cancel = cancelling(&frozen, MAKER);
    assert_eq!(update_cancel_offer(&mut cancel, 200), Err(SwapError::InvalidOfferStatus));
    // the vault still holds what remained
    assert_eq!(frozen.vault_token_account.amount, 1000);
    assert!(!frozen.vault_token_account.closed);
}

#[test]
fn counters_follow_every_move() {
    let mut stats = admin_config();
    assert_eq!(stats.update_offer_status(None, OfferStatus::Ongoing), Ok(()));
    assert_eq!(stats.update_offer_status(None, OfferStatus::Ongoing), Ok(()));
    assert_eq!(stats.update_offer_status(None, OfferStatus::Ongoing), Ok(()));
    assert_eq!((stats.total_offers, stats.active_offers), (3, 3));
    assert_eq!(stats.update_offer_status(Some(OfferStatus::Ongoing), OfferStatus::Completed), Ok(()));
    assert_eq!(stats.update_offer_status(Some(OfferStatus::Ongoing), OfferStatus::Cancelled), Ok(()));
    assert_eq!(stats.update_offer_status(Some(OfferStatus::Ongoing), OfferStatus::Expired), Ok(()));
    assert_eq!(
        (
            stats.total_offers,
            stats.active_offers,
            stats.completed_offers,
            stats.cancelled_offers,
            stats.expired_offers
        ),
        (3, 0, 1, 1, 1)
    );
    // nothing is open any more
    let before = stats;
    assert_eq!(
        stats.update_offer_status(Some(OfferStatus::Ongoing), OfferStatus::Completed),
        Err(SwapError::CalculationError)
    );
    assert_eq!(stats, before);
    // the statuses of the creation path have no counter
    assert_eq!(stats.update_offer_status(None, OfferStatus::Initialized), Ok(()));
    assert_eq!(
        stats.update_offer_status(Some(OfferStatus::Initialized), OfferStatus::VaultInitialized),
        Ok(())
    );
    assert_eq!((stats.total_offers, stats.active_offers), (4, 0));
    // a move within one status changes nothing
    let before = stats;
    assert_eq!(stats.update_offer_status(Some(OfferStatus::Ongoing), OfferStatus::Ongoing), Ok(()));
    assert_eq!(stats, before);
}
