use vstd::prelude::*;
use crate::address::Address;
use crate::error::SwapError;
use crate::state::offer::{OfferStatus, MAX_FEE_BASIS_POINTS};
use crate::state::whitelist::MAX_WHITELIST_ENTRIES;

verus! {

/// The asset types that the protocol accepts.
#[derive(Clone, Debug, PartialEq, Eq)]
pub struct MintWhitelist {
    pub mints: Vec<Address>,
}

impl MintWhitelist {
    /// The list is a set of at most 50 asset types.
    pub open spec fn wf(&self) -> bool {
        self.mints@.len() <= MAX_WHITELIST_ENTRIES && self.mints@.no_duplicates()
    }
}

/// The global fee schedule. Offers copy it when they are created.
#[derive(Clone, Copy, Debug, PartialEq, Eq)]
pub struct FeeConfig {
    /// Fee in basis points: 100 is 1%.
    pub fee_percentage: u64,
    /// Who receives the fee.
    pub fee_address: Address,
}

impl FeeConfig {
    pub open spec fn wf(&self) -> bool {
        self.fee_percentage <= MAX_FEE_BASIS_POINTS
    }

    /// A schedule counts as set once it names a fee wallet.
    pub open spec fn is_initialized(&self) -> bool {
        !self.fee_address.is_zero()
    }
}

/// The global switch that makes allow-lists binding.
#[derive(Clone, Copy, Debug, PartialEq, Eq)]
pub struct WhitelistConfig {
    pub require_whitelist: bool,
}

/// The administrator's identity and the protocol's running counters.
#[derive(Clone, Copy, Debug, PartialEq, Eq)]
pub struct AdminConfig {
    pub admin: Address,
    /// Offers ever created.
    pub total_offers: u64,
    /// Offers that are open now.
    pub active_offers: u64,
    pub completed_offers: u64,
    pub cancelled_offers: u64,
    pub expired_offers: u64,
    /// When the administrator last marked an offer expired.
    pub last_expiry_check: i64,
}

/// 1 where `status` is tallied under the counter that belongs to `counter`,
/// else 0. No status at all (an offer that does not exist yet) is tallied
/// nowhere, and neither are the two statuses of the creation path, which
/// have no counter.
pub open spec fn tallied(status: Option<OfferStatus>, counter: OfferStatus) -> int {
    if status == Some(counter) {
        1
    } else {
        0
    }
}

/// What the counter of `counter` holds after an offer moved from `previous`
/// to `next`: one less if it was tallied there, one more if it now is.
pub open spec fn tally_after(
    count: u64,
    previous: Option<OfferStatus>,
    next: OfferStatus,
    counter: OfferStatus,
) -> int {
    count - tallied(previous, counter) + tallied(Some(next), counter)
}

/// What the total holds after such a move: one more for an offer that did
/// not exist before.
pub open spec fn total_after(total: u64, previous: Option<OfferStatus>) -> int {
    if previous is None {
        total + 1
    } else {
        total as int
    }
}

/// Whether `status` has a counter of its own.
pub open spec fn has_counter(status: OfferStatus) -> bool {
    status == OfferStatus::Ongoing || status.is_terminal()
}

fn same_status(a: OfferStatus, b: OfferStatus) -> (same: bool)
    ensures
        same == (a == b),
{
    a == b
}

fn adjust(
    count: u64,
    previous: Option<OfferStatus>,
    next: OfferStatus,
    counter: OfferStatus,
) -> (out: Option<u64>)
    ensures
        match out {
            Some(n) => n == tally_after(count, previous, next, counter),
            None => !(0 <= tally_after(count, previous, next, counter) <= u64::MAX),
        },
{
    let leaves = match previous {
        Some(p) => same_status(p, counter),
        None => false,
    };
    let enters = same_status(next, counter);
    if leaves == enters {
        Some(count)
    } else if enters {
        if count == u64::MAX {
            None
        } else {
            Some(count + 1)
        }
    } else {
        if count == 0 {
            None
        } else {
            Some(count - 1)
        }
    }
}

impl AdminConfig {
    /// The four per-status counters never add up to more than the total.
    pub open spec fn wf(&self) -> bool {
        self.active_offers + self.completed_offers + self.cancelled_offers + self.expired_offers
            <= self.total_offers
    }

    /// The configuration counts as set once it names an administrator.
    pub open spec fn is_initialized(&self) -> bool {
        !self.admin.is_zero()
    }

    /// Whether the counters can take the move of one offer from `previous`
    /// to `next` without leaving the range of a `u64`.
    pub open spec fn can_record(&self, previous: Option<OfferStatus>, next: OfferStatus) -> bool {
        &&& total_after(self.total_offers, previous) <= u64::MAX
        &&& 0 <= tally_after(self.active_offers, previous, next, OfferStatus::Ongoing) <= u64::MAX
        &&& 0 <= tally_after(self.completed_offers, previous, next, OfferStatus::Completed)
            <= u64::MAX
        &&& 0 <= tally_after(self.cancelled_offers, previous, next, OfferStatus::Cancelled)
            <= u64::MAX
        &&& 0 <= tally_after(self.expired_offers, previous, next, OfferStatus::Expired) <= u64::MAX
    }

    /// The configuration after the move of one offer from `previous` to
    /// `next` has been recorded. Meaningful where `can_record` holds.
    pub open spec fn recorded(
        &self,
        previous: Option<OfferStatus>,
        next: OfferStatus,
    ) -> AdminConfig {
        AdminConfig {
            admin: self.admin,
            total_offers: total_after(self.total_offers, previous) as u64,
            active_offers: tally_after(
                self.active_offers,
                previous,
                next,
                OfferStatus::Ongoing,
            ) as u64,
            completed_offers: tally_after(
                self.completed_offers,
                previous,
                next,
                OfferStatus::Completed,
            ) as u64,
            cancelled_offers: tally_after(
                self.cancelled_offers,
                previous,
                next,
                OfferStatus::Cancelled,
            ) as u64,
            expired_offers: tally_after(
                self.expired_offers,
                previous,
                next,
                OfferStatus::Expired,
            ) as u64,
            last_expiry_check: self.last_expiry_check,
        }
    }

    /// The error with which a move that the counters cannot take is refused:
    /// `SequenceOverflow` where the total would overflow, `CalculationError`
    /// where a per-status counter would leave its range.
    pub open spec fn record_error(&self, previous: Option<OfferStatus>) -> SwapError {
        if total_after(self.total_offers, previous) > u64::MAX {
            SwapError::SequenceOverflow
        } else {
            SwapError::CalculationError
        }
    }

    /// Records that one offer moved from `previous` (`None` for an offer
    /// that is being created) to `next`: the counter of the status left
    /// goes down by one, the counter of the status entered goes up by one,
    /// and a new offer adds one to the total. Nothing changes on failure.
    pub fn update_offer_status(
        &mut self,
        previous: Option<OfferStatus>,
        next: OfferStatus,
    ) -> (done: Result<(), SwapError>)
        ensures
            match done {
                Ok(_) => old(self).can_record(previous, next) && *final(self) == old(
                    self,
                ).recorded(previous, next),
                Err(e) => !old(self).can_record(previous, next) && *final(self) == *old(self)
                    && e == old(self).record_error(previous),
            },
            done is Ok && old(self).wf() && (previous is None || has_counter(previous.unwrap())
                || !has_counter(next)) ==> final(self).wf(),
    {
        let total = match previous {
            None => {
                if self.total_offers == u64::MAX {
                    return Err(SwapError::SequenceOverflow);
                }
                self.total_offers + 1
            },
            Some(_) => self.total_offers,
        };
        let active = adjust(self.active_offers, previous, next, OfferStatus::Ongoing);
        let completed = adjust(self.completed_offers, previous, next, OfferStatus::Completed);
        let cancelled = adjust(self.cancelled_offers, previous, next, OfferStatus::Cancelled);
        let expired = adjust(self.expired_offers, previous, next, OfferStatus::Expired);
        match (active, completed, cancelled, expired) {
            (Some(a), Some(c), Some(x), Some(e)) => {
                self.total_offers = total;
                self.active_offers = a;
                self.completed_offers = c;
                self.cancelled_offers = x;
                self.expired_offers = e;
                Ok(())
            },
            _ => Err(SwapError::CalculationError),
        }
    }
}

} // verus!
