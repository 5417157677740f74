//! What holds of the protocol as a whole, proved from the transition
//! functions that the operations implement.

use vstd::prelude::*;
use vstd::arithmetic::div_mod::{
    lemma_div_pos_is_pos,
    lemma_fundamental_div_mod,
    lemma_mod_bound,
    lemma_multiply_divide_le,
};
use crate::address::Address;
use crate::error::SwapError;
use crate::instructions::cancel_offer::{after_cancel, cancel_rejection, CancelOffer};
use crate::instructions::create_offer::{create_rejection, CreateOffer};
use crate::instructions::expire_offer::{after_expire, expire_rejection, CheckExpiredOffer};
use crate::instructions::taker_offer::{
    account_rejection,
    after_take,
    condition_rejection,
    expected_payment,
    fee_amount,
    offer_after_take,
    payment_to_maker,
    payments_computable,
    take_rejection,
    CoreAccounts,
    TakeOffer,
};
use crate::state::admin::WhitelistConfig;
use crate::state::whitelist::{first_position, is_first_position};
use crate::state::offer::{Offer, OfferStatus};

verus! {

/// Rounding down loses less than one unit: `x / d` is the one integer `q`
/// with `q * d <= x < (q + 1) * d`.
pub proof fn lemma_floor_bounds(x: int, d: int)
    requires
        0 <= x,
        0 < d,
    ensures
        0 <= x / d,
        (x / d) * d <= x,
        x < (x / d) * d + d,
{
    lemma_fundamental_div_mod(x, d);
    lemma_mod_bound(x, d);
    lemma_div_pos_is_pos(x, d);
    assert(d * (x / d) == (x / d) * d) by (nonlinear_arith);
}

/// On a well-formed offer the amounts of every admissible fill exist: the
/// payment is at most the asking price, the fee is at most the payment, and
/// what the maker has received stays within the asking price. So no fill
/// that passes the amount check can fail on its arithmetic.
pub proof fn lemma_fill_amounts_exist(offer: &Offer, input: u64)
    requires
        offer.wf(),
        0 < input <= offer.token_amount_remaining,
    ensures
        payments_computable(offer, input),
        0 <= fee_amount(offer, input) <= expected_payment(offer, input),
        expected_payment(offer, input) <= offer.expected_total_amount,
        0 <= payment_to_maker(offer, input),
        offer.expected_fulfilled_amount + payment_to_maker(offer, input)
            <= offer.expected_total_amount,
        (offer.expected_fulfilled_amount + payment_to_maker(offer, input)) * offer.token_amount <= (
        offer.token_amount - (offer.token_amount_remaining - input)) * offer.expected_total_amount,
{
    let t = offer.token_amount as int;
    let e = offer.expected_total_amount as int;
    let r = offer.token_amount_remaining as int;
    let f = offer.expected_fulfilled_amount as int;
    let a = input as int;
    let bp = offer.fee_percentage as int;
    let x = a * e;
    let ep = expected_payment(offer, input);
    assert(0 <= x && x <= t * e) by (nonlinear_arith)
        requires
            0 <= a <= t,
            0 <= e,
            x == a * e,
    ;
    assert(ep == x / t);
    lemma_floor_bounds(x, t);
    lemma_multiply_divide_le(x, t, e);
    let y = ep * bp;
    assert(0 <= y && y <= 10000 * ep) by (nonlinear_arith)
        requires
            0 <= ep,
            0 <= bp <= 10000,
            y == ep * bp,
    ;
    let fee = fee_amount(offer, input);
    assert(fee == y / 10000);
    lemma_floor_bounds(y, 10000);
    lemma_multiply_divide_le(y, 10000, ep);
    let pm = ep - fee;
    assert((f + pm) * t <= (t - (r - a)) * e) by (nonlinear_arith)
        requires
            f * t <= (t - r) * e,
            pm <= ep,
            ep * t <= a * e,
            0 < t,
    ;
    assert(f + pm <= e) by (nonlinear_arith)
        requires
            (f + pm) * t <= (t - (r - a)) * e,
            0 < a <= r,
            r <= t,
            0 <= e,
            0 < t,
    ;
}

/// What the maker of a well-formed offer has received never exceeds the
/// asking price, however many fills there were and however they were
/// rounded.
pub proof fn lemma_fulfilled_within_asking_price(offer: &Offer)
    requires
        offer.wf(),
        offer.token_amount > 0,
    ensures
        offer.expected_fulfilled_amount <= offer.expected_total_amount,
{
    let t = offer.token_amount as int;
    let e = offer.expected_total_amount as int;
    let r = offer.token_amount_remaining as int;
    let f = offer.expected_fulfilled_amount as int;
    assert(f <= e) by (nonlinear_arith)
        requires
            f * t <= (t - r) * e,
            0 <= r <= t,
            0 < t,
            0 <= e,
            0 <= f,
    ;
}

/// The rate does not depend on how an amount is split: what a taker owes
/// for `a` and for `b` in two fills is never more than what one fill of
/// `a + b` costs, and falls short of it by at most one unit, the one that
/// rounding down twice can lose.
pub proof fn lemma_rate_invariance(offer: &Offer, a: u64, b: u64)
    requires
        offer.token_amount > 0,
        a + b <= u64::MAX,
    ensures
        expected_payment(offer, a) + expected_payment(offer, b) <= expected_payment(
            offer,
            (a + b) as u64,
        ),
        expected_payment(offer, (a + b) as u64) <= expected_payment(offer, a) + expected_payment(
            offer,
            b,
        ) + 1,
{
    let t = offer.token_amount as int;
    let e = offer.expected_total_amount as int;
    let x = a * e;
    let y = b * e;
    let z = (a + b) * e;
    assert(0 <= x && 0 <= y && z == x + y) by (nonlinear_arith)
        requires
            0 <= a,
            0 <= b,
            0 <= e,
            x == a * e,
            y == b * e,
            z == (a + b) * e,
    ;
    lemma_floor_bounds(x, t);
    lemma_floor_bounds(y, t);
    lemma_floor_bounds(z, t);
    let qx = x / t;
    let qy = y / t;
    let qz = z / t;
    assert(qx + qy <= qz && qz <= qx + qy + 1) by (nonlinear_arith)
        requires
            0 < t,
            qx * t <= x,
            x < qx * t + t,
            qy * t <= y,
            y < qy * t + t,
            qz * t <= x + y,
            x + y < qz * t + t,
    ;
}

/// A fill that goes through leaves a well-formed offer well-formed, takes
/// exactly the requested amount out of what remains, never lowers what the
/// maker has received, and moves the status forward or not at all.
pub proof fn lemma_take_keeps_offer(ctx: &TakeOffer, input: u64, now: i64)
    requires
        take_rejection(ctx, input, now) is None,
    ensures
        ({
            let before = ctx.core.offer;
            let after = after_take(ctx, input).core.offer;
            &&& after == offer_after_take(&before, input)
            &&& after.token_amount == before.token_amount
            &&& after.token_amount_remaining == before.token_amount_remaining - input
            &&& after.expected_fulfilled_amount == before.expected_fulfilled_amount
                + payment_to_maker(&before, input)
            &&& after.expected_fulfilled_amount >= before.expected_fulfilled_amount
            &&& before.status.no_later_than(after.status)
            &&& (after.status == OfferStatus::Completed <==> after.token_amount_remaining == 0)
            &&& (before.wf() ==> after.wf())
        }),
{
    let before = ctx.core.offer;
    if before.wf() {
        lemma_fill_amounts_exist(&before, input);
    }
}

/// A fill that goes through keeps custody exact: a vault that held what
/// remained before holds what remains after, and is closed, empty, exactly
/// when nothing remains.
pub proof fn lemma_take_keeps_custody(ctx: &TakeOffer, input: u64, now: i64)
    requires
        take_rejection(ctx, input, now) is None,
        ctx.token.vault_token_account.backs(&ctx.core.offer),
    ensures
        after_take(ctx, input).token.vault_token_account.backs(&after_take(ctx, input).core.offer),
        after_take(ctx, input).token.vault_token_account.amount == after_take(
            ctx,
            input,
        ).core.offer.token_amount_remaining,
        after_take(ctx, input).token.vault_token_account.closed == (after_take(
            ctx,
            input,
        ).core.offer.token_amount_remaining == 0),
{
}

/// The amounts of a run of fills, added up.
pub open spec fn total_taken(amounts: Seq<u64>) -> int
    decreases amounts.len(),
{
    if amounts.len() == 0 {
        0
    } else {
        total_taken(amounts.drop_last()) + amounts.last()
    }
}

/// `offers` is the history of one offer under the fills `amounts`: each
/// fill is admissible on the offer before it and produces the offer after
/// it.
pub open spec fn is_fill_history(offers: Seq<Offer>, amounts: Seq<u64>) -> bool {
    &&& offers.len() == amounts.len() + 1
    &&& forall|i: int|
        #![trigger amounts[i]]
        0 <= i < amounts.len() ==> {
            &&& offers[i].status == OfferStatus::Ongoing
            &&& 0 < amounts[i] <= offers[i].token_amount_remaining
            &&& offers[i + 1] == offer_after_take(&offers[i], amounts[i])
        }
}

/// Conservation: over any run of fills on one offer, what was taken and
/// what remains add up to what remained at the start, so the fills never
/// take more in all than was escrowed.
pub proof fn lemma_conservation(offers: Seq<Offer>, amounts: Seq<u64>)
    requires
        is_fill_history(offers, amounts),
        offers[0].token_amount_remaining <= offers[0].token_amount,
    ensures
        offers.last().token_amount == offers[0].token_amount,
        total_taken(amounts) + offers.last().token_amount_remaining
            == offers[0].token_amount_remaining,
        total_taken(amounts) <= offers[0].token_amount,
    decreases amounts.len(),
{
    if amounts.len() > 0 {
        let n = amounts.len() as int;
        let shorter = amounts.drop_last();
        let earlier = offers.drop_last();
        assert forall|i: int| #![trigger shorter[i]] 0 <= i < shorter.len() implies {
            &&& earlier[i].status == OfferStatus::Ongoing
            &&& 0 < shorter[i] <= earlier[i].token_amount_remaining
            &&& earlier[i + 1] == offer_after_take(&earlier[i], shorter[i])
        } by {
            assert(shorter[i] == amounts[i]);
        }
        lemma_conservation(earlier, shorter);
        assert(amounts[n - 1] == amounts.last());
        assert(earlier.last() == offers[n - 1]);
        assert(offers.last() == offers[n]);
    }
}

/// The records of a fill, with the allow-list switch set to `required`.
pub open spec fn with_requirement(ctx: &TakeOffer, required: bool) -> TakeOffer {
    TakeOffer {
        core: CoreAccounts {
            whitelist_config: WhitelistConfig { require_whitelist: required },
            ..ctx.core
        },
        ..*ctx
    }
}

/// A taker who is on the allow-list can fill: a fill by that taker which
/// would go through with the allow-list switched off goes through with it
/// switched on, and leaves the same records but for the switch.
pub proof fn lemma_listed_taker_can_fill(ctx: &TakeOffer, input: u64, now: i64)
    requires
        ctx.core.whitelist.admits(ctx.core.taker),
        take_rejection(&with_requirement(ctx, false), input, now) is None,
    ensures
        take_rejection(&with_requirement(ctx, true), input, now) is None,
        after_take(&with_requirement(ctx, true), input) == with_requirement(
            &after_take(&with_requirement(ctx, false), input),
            true,
        ),
{
}

/// A taker who is not on the allow-list cannot fill where the list binds:
/// on an open offer of the named maker the fill is refused with
/// `TakerNotWhitelisted`, whatever the amount and the time.
pub proof fn lemma_unlisted_taker_cannot_fill(ctx: &TakeOffer, input: u64, now: i64)
    requires
        !ctx.core.whitelist.admits(ctx.core.taker),
        ctx.core.whitelist_config.require_whitelist,
        ctx.core.offer.status == OfferStatus::Ongoing,
        ctx.core.maker == ctx.core.offer.maker,
    ensures
        take_rejection(ctx, input, now) == Some(SwapError::TakerNotWhitelisted),
{
}

/// A taker who has just been put on the allow-list can fill: where the
/// list ends with the taker, as it does after the taker was added, a fill
/// by that taker which would go through with the allow-list switched off
/// goes through with it switched on.
pub proof fn lemma_added_taker_can_fill(
    ctx: &TakeOffer,
    earlier: Seq<Address>,
    input: u64,
    now: i64,
)
    requires
        ctx.core.whitelist.takers@ == earlier.push(ctx.core.taker),
        take_rejection(&with_requirement(ctx, false), input, now) is None,
    ensures
        ctx.core.whitelist.admits(ctx.core.taker),
        take_rejection(&with_requirement(ctx, true), input, now) is None,
{
    let list = ctx.core.whitelist.takers@;
    assert(list[list.len() - 1] == ctx.core.taker);
    lemma_listed_taker_can_fill(ctx, input, now);
}

/// A taker who has just been taken off the allow-list cannot fill: where
/// the list is a duplicate-free one from which the taker was removed, and
/// the switch is on, a fill by that taker on an open offer of the named
/// maker is refused with `TakerNotWhitelisted`.
pub proof fn lemma_removed_taker_cannot_fill(
    ctx: &TakeOffer,
    earlier: Seq<Address>,
    input: u64,
    now: i64,
)
    requires
        earlier.no_duplicates(),
        earlier.contains(ctx.core.taker),
        ctx.core.whitelist.takers@ == earlier.remove(first_position(earlier, ctx.core.taker)),
        ctx.core.whitelist_config.require_whitelist,
        ctx.core.offer.status == OfferStatus::Ongoing,
        ctx.core.maker == ctx.core.offer.maker,
    ensures
        !ctx.core.whitelist.admits(ctx.core.taker),
        take_rejection(ctx, input, now) == Some(SwapError::TakerNotWhitelisted),
{
    let taker = ctx.core.taker;
    let list = ctx.core.whitelist.takers@;
    let witness = choose|i: int| 0 <= i < earlier.len() && earlier[i] == taker;
    assert(is_first_position(earlier, taker, witness));
    let at = first_position(earlier, taker);
    if list.contains(taker) {
        let i = choose|i: int| 0 <= i < list.len() && list[i] == taker;
        let before = if i < at {
            i
        } else {
            i + 1
        };
        assert(earlier[before] == taker);
    }
}

/// A terminal offer stays as it is: whoever asks, whenever, and for
/// whatever amount, an offer that is completed, cancelled or expired can be
/// neither filled nor cancelled nor marked expired nor created anew. Each
/// attempt is refused with `InvalidOfferStatus`, and a refused operation
/// changes nothing.
pub proof fn lemma_terminal_offer_is_final(
    take: &TakeOffer,
    input: u64,
    cancel: &CancelOffer,
    expire: &CheckExpiredOffer,
    create: &CreateOffer,
    token_amount: u64,
    deadline: i64,
    now: i64,
)
    ensures
        take.core.offer.status.is_terminal() ==> take_rejection(take, input, now) == Some(
            SwapError::InvalidOfferStatus,
        ),
        cancel.offer.status.is_terminal() ==> cancel_rejection(cancel, now) == Some(
            SwapError::InvalidOfferStatus,
        ),
        expire.offer.status.is_terminal() ==> expire_rejection(expire, now) == Some(
            SwapError::InvalidOfferStatus,
        ),
        create.offer.status.is_terminal() ==> create_rejection(create, token_amount, deadline, now)
            == Some(SwapError::InvalidOfferStatus),
{
}

/// Moving forward composes: a status that is no later than a second, which
/// is no later than a third, is no later than the third. So over any run of
/// operations an offer's status never moves backward.
pub proof fn lemma_status_order_is_transitive(a: OfferStatus, b: OfferStatus, c: OfferStatus)
    requires
        a.no_later_than(b),
        b.no_later_than(c),
    ensures
        a.no_later_than(c),
{
}

/// No status lies after a terminal one: what is no earlier than a terminal
/// status is that status.
pub proof fn lemma_nothing_follows_terminal(a: OfferStatus, b: OfferStatus)
    requires
        a.is_terminal(),
        a.no_later_than(b),
    ensures
        a == b,
{
}

/// Success is owed: where the offer is well-formed, its vault holds
/// exactly what remains, an open offer is counted and the counters are
/// consistent, a fill that the records and the conditions admit goes
/// through. On such records no fill fails on its arithmetic.
pub proof fn lemma_admissible_fill_settles(ctx: &TakeOffer, input: u64, now: i64)
    requires
        ctx.core.offer.wf(),
        ctx.token.vault_token_account.backs(&ctx.core.offer),
        ctx.core.admin_config.wf(),
        ctx.core.admin_config.active_offers >= 1,
        account_rejection(ctx) is None,
        condition_rejection(&ctx.core.offer, input, now) is None,
    ensures
        take_rejection(ctx, input, now) is None,
{
    lemma_fill_amounts_exist(&ctx.core.offer, input);
}

/// What a taker owes for each fill of a run at the rate of `offer`, added
/// up.
pub open spec fn total_owed(offer: &Offer, amounts: Seq<u64>) -> int
    decreases amounts.len(),
{
    if amounts.len() == 0 {
        0
    } else {
        total_owed(offer, amounts.drop_last()) + expected_payment(offer, amounts.last())
    }
}

/// The rate does not depend on how an amount is split, however often: what
/// a taker owes for a run of fills is never more than what one fill of the
/// whole costs, and falls short of it by less than one unit for each fill.
pub proof fn lemma_rate_invariance_over_run(offer: &Offer, amounts: Seq<u64>)
    requires
        offer.token_amount > 0,
        amounts.len() > 0,
        total_taken(amounts) <= u64::MAX,
    ensures
        total_owed(offer, amounts) <= expected_payment(offer, total_taken(amounts) as u64),
        expected_payment(offer, total_taken(amounts) as u64) <= total_owed(offer, amounts)
            + amounts.len() - 1,
    decreases amounts.len(),
{
    lemma_total_taken_not_negative(amounts.drop_last());
    if amounts.len() == 1 {
        assert(amounts.drop_last().len() == 0);
        assert(total_taken(amounts.drop_last()) == 0);
        assert(total_owed(offer, amounts.drop_last()) == 0);
    } else {
        let shorter = amounts.drop_last();
        lemma_rate_invariance_over_run(offer, shorter);
        lemma_rate_invariance(offer, total_taken(shorter) as u64, amounts.last());
    }
}

/// A run of fills takes a non-negative amount in all.
pub proof fn lemma_total_taken_not_negative(amounts: Seq<u64>)
    ensures
        0 <= total_taken(amounts),
    decreases amounts.len(),
{
    if amounts.len() > 0 {
        lemma_total_taken_not_negative(amounts.drop_last());
    }
}

/// Whether two offers have the same terms: identity, assets, amounts asked
/// and escrowed, deadline and fee terms.
pub open spec fn same_terms(a: &Offer, b: &Offer) -> bool {
    &&& a.offer_id == b.offer_id
    &&& a.maker == b.maker
    &&& a.input_token_mint == b.input_token_mint
    &&& a.output_token_mint == b.output_token_mint
    &&& a.token_amount == b.token_amount
    &&& a.expected_total_amount == b.expected_total_amount
    &&& a.deadline == b.deadline
    &&& a.fee_percentage == b.fee_percentage
    &&& a.fee_wallet == b.fee_wallet
}

/// The terms of an offer are fixed at its creation: no fill, cancellation
/// or marking changes them. In particular the fee terms that an offer
/// copied when it was created stay its own, whatever becomes of the global
/// schedule.
pub proof fn lemma_terms_never_change(
    take: &TakeOffer,
    input: u64,
    cancel: &CancelOffer,
    expire: &CheckExpiredOffer,
    now: i64,
)
    ensures
        same_terms(&take.core.offer, &after_take(take, input).core.offer),
        same_terms(&cancel.offer, &after_cancel(cancel).offer),
        same_terms(&expire.offer, &after_expire(expire, now).offer),
{
}

} // verus!
