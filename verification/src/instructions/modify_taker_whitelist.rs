use vstd::prelude::*;
use crate::address::Address;
use crate::error::SwapError;
use crate::state::whitelist::{
    first_position,
    list_contains,
    list_position,
    Whitelist,
    MAX_WHITELIST_ENTRIES,
};

verus! {

/// The records that a change of one entry of an offer's allow-list reads
/// and changes.
#[derive(Clone, Debug, PartialEq, Eq)]
pub struct ModifyWhitelist {
    /// Who asks for the change.
    pub maker: Address,
    pub whitelist: Whitelist,
}

impl ModifyWhitelist {
    /// The error with which adding `taker` is refused, or `None` where it
    /// goes through; the checks are made in this order.
    pub open spec fn add_rejection(&self, taker: Address) -> Option<SwapError> {
        if self.whitelist.maker != self.maker {
            Some(SwapError::UnauthorizedMaker)
        } else if self.whitelist.admits(taker) {
            Some(SwapError::TakerAlreadyWhitelisted)
        } else if self.whitelist.takers@.len() >= MAX_WHITELIST_ENTRIES {
            Some(SwapError::WhitelistFull)
        } else {
            None
        }
    }

    /// The error with which removing `taker` is refused, or `None` where it
    /// goes through; the checks are made in this order.
    pub open spec fn remove_rejection(&self, taker: Address) -> Option<SwapError> {
        if self.whitelist.maker != self.maker {
            Some(SwapError::UnauthorizedMaker)
        } else if !self.whitelist.admits(taker) {
            Some(SwapError::TakerNotWhitelisted)
        } else {
            None
        }
    }

    /// Puts `taker` at the end of the allow-list. Only the list's maker can
    /// do so, a taker who is on the list is not added again, and the list
    /// holds no more than 50 takers. Nothing changes on failure.
    pub fn add_taker(&mut self, taker: Address) -> (outcome: Result<(), SwapError>)
        ensures
            match outcome {
                Ok(_) => {
                    &&& old(self).add_rejection(taker) is None
                    &&& final(self).whitelist.takers@ == old(self).whitelist.takers@.push(taker)
                    &&& final(self).whitelist.admits(taker)
                },
                Err(e) => old(self).add_rejection(taker) == Some(e) && final(
                    self
                ).whitelist.takers@ == old(self).whitelist.takers@,
            },
            final(self).maker == old(self).maker,
            final(self).whitelist.maker == old(self).whitelist.maker,
            final(self).whitelist.offer == old(self).whitelist.offer,
            old(self).whitelist.wf() ==> final(self).whitelist.wf(),
    {
        if self.whitelist.maker != self.maker {
            return Err(SwapError::UnauthorizedMaker);
        }
        if list_contains(&self.whitelist.takers, &taker) {
            return Err(SwapError::TakerAlreadyWhitelisted);
        }
        if self.whitelist.takers.len() >= MAX_WHITELIST_ENTRIES {
            return Err(SwapError::WhitelistFull);
        }
        self.whitelist.takers.push(taker);
        proof {
            let after = self.whitelist.takers@;
            assert(after[after.len() - 1] == taker);
        }
        Ok(())
    }

    /// Takes `taker` off the allow-list, at the first place where it
    /// stands. Only the list's maker can do so, and only a taker who is on
    /// the list can be taken off. Nothing changes on failure.
    pub fn remove_taker(&mut self, taker: Address) -> (outcome: Result<(), SwapError>)
        ensures
            match outcome {
                Ok(_) => {
                    &&& old(self).remove_rejection(taker) is None
                    &&& final(self).whitelist.takers@ == old(self).whitelist.takers@.remove(
                        first_position(old(self).whitelist.takers@, taker),
                    )
                    &&& old(self).whitelist.wf() ==> !final(self).whitelist.admits(taker)
                },
                Err(e) => old(self).remove_rejection(taker) == Some(e) && final(
                    self
                ).whitelist.takers@ == old(self).whitelist.takers@,
            },
            final(self).maker == old(self).maker,
            final(self).whitelist.maker == old(self).whitelist.maker,
            final(self).whitelist.offer == old(self).whitelist.offer,
            old(self).whitelist.wf() ==> final(self).whitelist.wf(),
    {
        if self.whitelist.maker != self.maker {
            return Err(SwapError::UnauthorizedMaker);
        }
        let position = match list_position(&self.whitelist.takers, &taker) {
            Some(at) => at,
            None => {
                return Err(SwapError::TakerNotWhitelisted);
            },
        };
        self.whitelist.takers.remove(position);
        proof {
            let before = old(self).whitelist.takers@;
            let after = self.whitelist.takers@;
            assert(after == before.remove(position as int));
            if before.no_duplicates() {
                assert forall|i: int, j: int| 0 <= i < j < after.len() implies after[i]
                    != after[j] by {
                    let bi = if i < position { i } else { i + 1 };
                    let bj = if j < position { j } else { j + 1 };
                    assert(after[i] == before[bi] && after[j] == before[bj]);
                }
                if after.contains(taker) {
                    let i = choose|i: int| 0 <= i < after.len() && after[i] == taker;
                    let bi = if i < position { i } else { i + 1 };
                    assert(before[bi] == taker);
                }
            }
        }
        Ok(())
    }
}

} // verus!
