use vstd::prelude::*;
use crate::address::Address;
use crate::error::SwapError;
use crate::state::whitelist::{
    add_entries,
    lemma_with_entries,
    lemma_without_entries,
    remove_entries,
    with_entries,
    without_entries,
    Whitelist,
    MAX_WHITELIST_ENTRIES,
};

verus! {

/// The records that a change of several entries of an offer's allow-list
/// reads and changes.
#[derive(Clone, Debug, PartialEq, Eq)]
pub struct UpdateWhitelist {
    /// Who asks for the change.
    pub maker: Address,
    pub whitelist: Whitelist,
}

/// The error with which adding `new_takers` is refused, or `None` where it
/// goes through; the checks are made in this order. The list must have
/// room for all of them, whether or not some are on it already.
pub open spec fn add_takers_rejection(ctx: &UpdateWhitelist, new_takers: Seq<Address>) -> Option<
    SwapError,
> {
    if ctx.whitelist.maker != ctx.maker {
        Some(SwapError::UnauthorizedMaker)
    } else if new_takers.len() == 0 {
        Some(SwapError::EmptyTakersList)
    } else if ctx.whitelist.takers@.len() + new_takers.len() > MAX_WHITELIST_ENTRIES {
        Some(SwapError::WhitelistFull)
    } else {
        None
    }
}

/// The error with which removing `remove_takers` is refused, or `None`
/// where it goes through; the checks are made in this order.
pub open spec fn remove_takers_rejection(ctx: &UpdateWhitelist, remove_takers: Seq<Address>)
    -> Option<SwapError> {
    if ctx.whitelist.maker != ctx.maker {
        Some(SwapError::UnauthorizedMaker)
    } else if remove_takers.len() == 0 {
        Some(SwapError::EmptyTakersList)
    } else {
        None
    }
}

/// Adds each of `new_takers` to the allow-list, in turn, skipping those
/// that are on it already. Nothing changes on failure.
pub fn add_takers(ctx: &mut UpdateWhitelist, new_takers: Vec<Address>) -> (outcome: Result<
    (),
    SwapError,
>)
    ensures
        match outcome {
            Ok(_) => {
                &&& add_takers_rejection(old(ctx), new_takers@) is None
                &&& final(ctx).whitelist.takers@ == with_entries(
                    old(ctx).whitelist.takers@,
                    new_takers@,
                )
                &&& forall|a: Address| #[trigger]
                    final(ctx).whitelist.admits(a) <==> old(ctx).whitelist.admits(a)
                        || new_takers@.contains(a)
            },
            Err(e) => add_takers_rejection(old(ctx), new_takers@) == Some(e) && final(
                ctx
            ).whitelist.takers@ == old(ctx).whitelist.takers@,
        },
        final(ctx).maker == old(ctx).maker,
        final(ctx).whitelist.maker == old(ctx).whitelist.maker,
        final(ctx).whitelist.offer == old(ctx).whitelist.offer,
        old(ctx).whitelist.wf() ==> final(ctx).whitelist.wf(),
{
    if ctx.whitelist.maker != ctx.maker {
        return Err(SwapError::UnauthorizedMaker);
    }
    if new_takers.len() == 0 {
        return Err(SwapError::EmptyTakersList);
    }
    if new_takers.len() > MAX_WHITELIST_ENTRIES || ctx.whitelist.takers.len()
        > MAX_WHITELIST_ENTRIES - new_takers.len() {
        return Err(SwapError::WhitelistFull);
    }
    add_entries(&mut ctx.whitelist.takers, &new_takers);
    proof {
        lemma_with_entries(old(ctx).whitelist.takers@, new_takers@);
    }
    Ok(())
}

/// Takes every one of `unwanted` off the allow-list; those that are
/// not on it are passed over. Nothing changes on failure.
pub fn remove_takers(ctx: &mut UpdateWhitelist, unwanted: Vec<Address>) -> (outcome: Result<
    (),
    SwapError,
>)
    ensures
        match outcome {
            Ok(_) => {
                &&& remove_takers_rejection(old(ctx), unwanted@) is None
                &&& final(ctx).whitelist.takers@ == without_entries(
                    old(ctx).whitelist.takers@,
                    unwanted@,
                )
                &&& forall|a: Address| #[trigger]
                    final(ctx).whitelist.admits(a) <==> old(ctx).whitelist.admits(a)
                        && !unwanted@.contains(a)
            },
            Err(e) => remove_takers_rejection(old(ctx), unwanted@) == Some(e) && final(
                ctx
            ).whitelist.takers@ == old(ctx).whitelist.takers@,
        },
        final(ctx).maker == old(ctx).maker,
        final(ctx).whitelist.maker == old(ctx).whitelist.maker,
        final(ctx).whitelist.offer == old(ctx).whitelist.offer,
        old(ctx).whitelist.wf() ==> final(ctx).whitelist.wf(),
{
    if ctx.whitelist.maker != ctx.maker {
        return Err(SwapError::UnauthorizedMaker);
    }
    if unwanted.len() == 0 {
        return Err(SwapError::EmptyTakersList);
    }
    remove_entries(&mut ctx.whitelist.takers, &unwanted);
    proof {
        lemma_without_entries(old(ctx).whitelist.takers@, unwanted@);
    }
    Ok(())
}

} // verus!
