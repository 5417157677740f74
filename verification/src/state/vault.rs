use vstd::prelude::*;
use crate::address::Address;
use crate::state::offer::{Offer, OfferStatus};

verus! {

/// The custody record of one offer: a balance of one asset that only the
/// offer named as its owner can release.
#[derive(Clone, Copy, Debug, PartialEq, Eq)]
pub struct EscrowVault {
    /// The address of the offer that alone may release the balance.
    pub owner: Address,
    /// The asset held.
    pub mint: Address,
    /// How much is held.
    pub amount: u64,
    /// Whether the record has been closed and its storage deposit refunded.
    pub closed: bool,
}

impl EscrowVault {
    /// Whether this vault is the custody of `offer`, which lives at
    /// `offer_key`: same owner, same asset.
    pub open spec fn bound_to(&self, offer: &Offer, offer_key: Address) -> bool {
        self.owner == offer_key && self.mint == offer.input_token_mint
    }

    /// The custody discipline. While the offer is open the vault is open and
    /// holds exactly what remains; a completed or cancelled offer has an
    /// empty, closed vault; a vault is never closed with a balance in it.
    pub open spec fn backs(&self, offer: &Offer) -> bool {
        &&& (self.closed ==> self.amount == 0)
        &&& (offer.status == OfferStatus::Ongoing ==> !self.closed && self.amount
            == offer.token_amount_remaining)
        &&& (offer.status == OfferStatus::Expired ==> !self.closed && self.amount
            == offer.token_amount_remaining)
        &&& (offer.status == OfferStatus::Completed || offer.status == OfferStatus::Cancelled
            ==> self.closed)
    }
}

} // verus!
