use vstd::prelude::*;
use crate::address::Address;

verus! {

/// Largest fee, in basis points, that a fee schedule may carry (100%).
pub const MAX_FEE_BASIS_POINTS: u64 = 10000;

/// Where an offer stands in its life.
#[derive(Clone, Copy, Debug, PartialEq, Eq, Structural)]
pub enum OfferStatus {
    /// The record exists and holds no terms yet.
    Initialized,
    /// The vault exists and the escrowed asset is on its way into it.
    VaultInitialized,
    /// The offer is open: it can be filled, cancelled or marked expired.
    Ongoing,
    /// Everything that was escrowed has been taken.
    Completed,
    /// The remaining escrow went back to the maker.
    Cancelled,
    /// The administrator froze the offer after its deadline.
    Expired,
}

impl OfferStatus {
    /// Completed, Cancelled and Expired admit no further transition.
    pub open spec fn is_terminal(self) -> bool {
        self == OfferStatus::Completed || self == OfferStatus::Cancelled || self
            == OfferStatus::Expired
    }

    /// How far along the transition graph a status lies: the creation path
    /// counts 0, 1, 2 and the three terminal states share the last level.
    pub open spec fn stage(self) -> nat {
        match self {
            OfferStatus::Initialized => 0,
            OfferStatus::VaultInitialized => 1,
            OfferStatus::Ongoing => 2,
            OfferStatus::Completed => 3,
            OfferStatus::Cancelled => 3,
            OfferStatus::Expired => 3,
        }
    }

    /// `next` is `self` or lies strictly further along the transition graph.
    pub open spec fn no_later_than(self, next: OfferStatus) -> bool {
        self == next || self.stage() < next.stage()
    }

}

/// One escrow contract: the maker's locked asset and the terms on which
/// takers may have it.
#[derive(Clone, Copy, Debug, PartialEq, Eq)]
pub struct Offer {
    /// Chosen by the maker; unique among the maker's offers.
    pub offer_id: u64,
    /// Who created the offer.
    pub maker: Address,
    /// The asset held in escrow.
    pub input_token_mint: Address,
    /// How much was escrowed at creation. Never changes.
    pub token_amount: u64,
    /// The asset the maker wants in return.
    pub output_token_mint: Address,
    /// How much of the output asset the whole escrow is offered for.
    pub expected_total_amount: u64,
    /// How much of the escrow has not been taken yet.
    pub token_amount_remaining: u64,
    /// How much of the output asset the maker has received so far.
    pub expected_fulfilled_amount: u64,
    /// Unix time after which the offer can no longer be filled.
    pub deadline: i64,
    pub status: OfferStatus,
    /// Fee in basis points, copied from the global schedule at creation.
    pub fee_percentage: u64,
    /// Who receives the fee, copied from the global schedule at creation.
    pub fee_wallet: Address,
}

impl Offer {
    /// What holds of every offer that the protocol's operations produce:
    /// no more remains than was escrowed, the fee is at most 100%, and an
    /// offer that has been opened is completed exactly when nothing remains.
    ///
    /// The last clause bounds what the maker has received by the share of the
    /// asking price that corresponds to what was taken; it is what keeps the
    /// running total from ever exceeding `expected_total_amount`.
    pub open spec fn wf(&self) -> bool {
        &&& self.token_amount_remaining <= self.token_amount
        &&& self.fee_percentage <= MAX_FEE_BASIS_POINTS
        &&& (self.status == OfferStatus::Ongoing || self.status.is_terminal() ==> (
        self.token_amount_remaining == 0 <==> self.status == OfferStatus::Completed))
        &&& self.expected_fulfilled_amount * self.token_amount <= (self.token_amount
            - self.token_amount_remaining) * self.expected_total_amount
    }

    /// A record that has been allocated and holds no terms yet.
    pub open spec fn is_blank(&self) -> bool {
        self.status == OfferStatus::Initialized
    }

    /// A blank record, as storage hands it out before creation.
    pub fn blank() -> (offer: Offer)
        ensures
            offer.is_blank(),
            offer.offer_id == 0,
            offer.token_amount == 0,
            offer.token_amount_remaining == 0,
            offer.expected_total_amount == 0,
            offer.expected_fulfilled_amount == 0,
            offer.deadline == 0,
            offer.fee_percentage == 0,
            offer.maker.is_zero(),
            offer.input_token_mint.is_zero(),
            offer.output_token_mint.is_zero(),
            offer.fee_wallet.is_zero(),
    {
        Offer {
            offer_id: 0,
            maker: Address::default(),
            input_token_mint: Address::default(),
            token_amount: 0,
            output_token_mint: Address::default(),
            expected_total_amount: 0,
            token_amount_remaining: 0,
            expected_fulfilled_amount: 0,
            deadline: 0,
            status: OfferStatus::Initialized,
            fee_percentage: 0,
            fee_wallet: Address::default(),
        }
    }
}

} // verus!
