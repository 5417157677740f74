use vstd::prelude::*;
use crate::address::Address;
use crate::error::SwapError;
use crate::state::admin::{AdminConfig, FeeConfig, MintWhitelist, WhitelistConfig};
use crate::state::offer::MAX_FEE_BASIS_POINTS;
use crate::state::whitelist::{
    add_entries,
    first_position,
    lemma_with_entries,
    lemma_without_entries,
    list_contains,
    list_position,
    remove_entries,
    with_entries,
    without_entries,
    MAX_WHITELIST_ENTRIES,
};

verus! {

/// What the set-up of the protocol did.
#[derive(Clone, Debug, PartialEq, Eq)]
pub struct AdminInitialized {
    pub admin: Address,
    pub fee_percentage: u64,
    pub fee_wallet: Address,
    pub require_whitelist: bool,
    pub initial_mints: Vec<Address>,
    pub timestamp: i64,
}

/// What one change of the fee did.
#[derive(Clone, Copy, Debug, PartialEq, Eq)]
pub struct FeeUpdated {
    pub admin: Address,
    pub old_fee: u64,
    pub new_fee: u64,
    pub timestamp: i64,
}

/// What one change of the fee wallet did.
#[derive(Clone, Copy, Debug, PartialEq, Eq)]
pub struct FeeWalletUpdated {
    pub admin: Address,
    pub old_wallet: Address,
    pub new_wallet: Address,
    pub timestamp: i64,
}

/// What one flip of the allow-list switch did.
#[derive(Clone, Copy, Debug, PartialEq, Eq)]
pub struct WhitelistRequirementToggled {
    pub admin: Address,
    pub new_status: bool,
    pub timestamp: i64,
}

/// What one addition to the accepted asset types did.
#[derive(Clone, Debug, PartialEq, Eq)]
pub struct MintsAddedToWhitelist {
    pub admin: Address,
    pub new_mints: Vec<Address>,
    pub timestamp: i64,
}

/// What one removal from the accepted asset types did.
#[derive(Clone, Debug, PartialEq, Eq)]
pub struct MintsRemovedFromWhitelist {
    pub admin: Address,
    pub removed_mints: Vec<Address>,
    pub timestamp: i64,
}

/// The records that the set-up of the protocol fills.
#[derive(Clone, Debug, PartialEq, Eq)]
pub struct Initialize {
    /// Who sets the protocol up and becomes its administrator.
    pub admin: Address,
    pub admin_config: AdminConfig,
    pub fee_config: FeeConfig,
    pub whitelist_config: WhitelistConfig,
    pub mint_whitelist: MintWhitelist,
}

/// The records that a change of the fee wallet reads and changes.
#[derive(Clone, Copy, Debug, PartialEq, Eq)]
pub struct UpdateFeeAddress {
    /// Who asks for the change.
    pub admin: Address,
    pub admin_config: AdminConfig,
    pub fee_config: FeeConfig,
}

/// The records that a change of the fee reads and changes.
#[derive(Clone, Copy, Debug, PartialEq, Eq)]
pub struct UpdateFee {
    /// Who asks for the change.
    pub admin: Address,
    pub admin_config: AdminConfig,
    pub fee_config: FeeConfig,
}

/// The records that a flip of the allow-list switch reads and changes.
#[derive(Clone, Copy, Debug, PartialEq, Eq)]
pub struct ToggleRequireWhitelist {
    /// Who asks for the change.
    pub admin: Address,
    pub admin_config: AdminConfig,
    pub whitelist_config: WhitelistConfig,
}

/// The records that a change of the accepted asset types reads and
/// changes.
#[derive(Clone, Debug, PartialEq, Eq)]
pub struct ModifyMintWhitelist {
    /// Who asks for the change.
    pub admin: Address,
    pub admin_config: AdminConfig,
    pub mint_whitelist: MintWhitelist,
}

/// The error with which the set-up is refused, or `None` where it goes
/// through; the checks are made in this order.
pub open spec fn initialize_rejection(fee_percentage: u64, fee_wallet: Address, mints: Seq<Address>)
    -> Option<SwapError> {
    if fee_percentage > MAX_FEE_BASIS_POINTS {
        Some(SwapError::InvalidFeePercentage)
    } else if mints.len() > MAX_WHITELIST_ENTRIES {
        Some(SwapError::TooManyMints)
    } else if fee_wallet.is_zero() {
        Some(SwapError::InvalidAddress)
    } else {
        None
    }
}

/// Sets the protocol up at time `current_time`: the caller becomes the
/// administrator, every counter starts at zero, the fee schedule and the
/// allow-list switch take the values given, and the accepted asset types
/// are `initial_mints`, each once. Nothing changes on failure.
pub fn initialize(
    ctx: &mut Initialize,
    fee_percentage: u64,
    fee_wallet: Address,
    require_whitelist: bool,
    initial_mints: Vec<Address>,
    current_time: i64,
) -> (outcome: Result<AdminInitialized, SwapError>)
    ensures
        match outcome {
            Ok(event) => {
                &&& initialize_rejection(fee_percentage, fee_wallet, initial_mints@) is None
                &&& final(ctx).admin_config == (AdminConfig {
                    admin: old(ctx).admin,
                    total_offers: 0,
                    active_offers: 0,
                    completed_offers: 0,
                    cancelled_offers: 0,
                    expired_offers: 0,
                    last_expiry_check: current_time,
                })
                &&& final(ctx).fee_config == (FeeConfig { fee_percentage, fee_address: fee_wallet })
                &&& final(ctx).whitelist_config == (WhitelistConfig { require_whitelist })
                &&& final(ctx).mint_whitelist.mints@ == with_entries(Seq::empty(), initial_mints@)
                &&& final(ctx).admin_config.wf()
                &&& final(ctx).fee_config.wf()
                &&& final(ctx).fee_config.is_initialized()
                &&& final(ctx).mint_whitelist.wf()
                &&& event.admin == old(ctx).admin
                &&& event.fee_percentage == fee_percentage
                &&& event.fee_wallet == fee_wallet
                &&& event.require_whitelist == require_whitelist
                &&& event.initial_mints@ == initial_mints@
                &&& event.timestamp == current_time
            },
            Err(e) => {
                &&& initialize_rejection(fee_percentage, fee_wallet, initial_mints@) == Some(e)
                &&& *final(ctx) == *old(ctx)
            },
        },
        final(ctx).admin == old(ctx).admin,
{
    if fee_percentage > MAX_FEE_BASIS_POINTS {
        return Err(SwapError::InvalidFeePercentage);
    }
    if initial_mints.len() > MAX_WHITELIST_ENTRIES {
        return Err(SwapError::TooManyMints);
    }
    if fee_wallet.is_default() {
        return Err(SwapError::InvalidAddress);
    }
    ctx.admin_config =
    AdminConfig {
        admin: ctx.admin,
        total_offers: 0,
        active_offers: 0,
        completed_offers: 0,
        cancelled_offers: 0,
        expired_offers: 0,
        last_expiry_check: current_time,
    };
    ctx.fee_config = FeeConfig { fee_percentage, fee_address: fee_wallet };
    ctx.whitelist_config = WhitelistConfig { require_whitelist };
    let mut mints: Vec<Address> = Vec::new();
    add_entries(&mut mints, &initial_mints);
    proof {
        lemma_with_entries(Seq::empty(), initial_mints@);
    }
    ctx.mint_whitelist.mints = mints;
    Ok(
        AdminInitialized {
            admin: ctx.admin,
            fee_percentage,
            fee_wallet,
            require_whitelist,
            initial_mints,
            timestamp: current_time,
        },
    )
}

/// The error with which a change of the fee wallet to `new_address` is
/// refused, or `None` where it goes through.
pub open spec fn fee_address_rejection(ctx: &UpdateFeeAddress, new_address: Address) -> Option<
    SwapError,
> {
    if ctx.admin_config.admin != ctx.admin {
        Some(SwapError::UnauthorizedAdmin)
    } else if new_address.is_zero() {
        Some(SwapError::InvalidAddress)
    } else {
        None
    }
}

/// Makes `new_address` the fee wallet. Only the administrator can do so,
/// and the all-zero identity is no wallet. Offers that exist keep the
/// wallet they were created with. Nothing changes on failure.
pub fn fee_address_update(
    ctx: &mut UpdateFeeAddress,
    new_address: Address,
    current_time: i64,
) -> (outcome: Result<FeeWalletUpdated, SwapError>)
    ensures
        match outcome {
            Ok(event) => {
                &&& fee_address_rejection(old(ctx), new_address) is None
                &&& *final(ctx) == (UpdateFeeAddress {
                    fee_config: FeeConfig { fee_address: new_address, ..old(ctx).fee_config },
                    ..*old(ctx)
                })
                &&& event == (FeeWalletUpdated {
                    admin: old(ctx).admin,
                    old_wallet: old(ctx).fee_config.fee_address,
                    new_wallet: new_address,
                    timestamp: current_time,
                })
            },
            Err(e) => fee_address_rejection(old(ctx), new_address) == Some(e) && *final(ctx)
                == *old(ctx),
        },
{
    if ctx.admin_config.admin != ctx.admin {
        return Err(SwapError::UnauthorizedAdmin);
    }
    if new_address.is_default() {
        return Err(SwapError::InvalidAddress);
    }
    let old_wallet = ctx.fee_config.fee_address;
    ctx.fee_config.fee_address = new_address;
    Ok(
        FeeWalletUpdated {
            admin: ctx.admin,
            old_wallet,
            new_wallet: new_address,
            timestamp: current_time,
        },
    )
}

/// The error with which a change of the fee to `new_fee` basis points is
/// refused, or `None` where it goes through.
pub open spec fn fee_rejection(ctx: &UpdateFee, new_fee: u64) -> Option<SwapError> {
    if ctx.admin_config.admin != ctx.admin {
        Some(SwapError::UnauthorizedAdmin)
    } else if new_fee > MAX_FEE_BASIS_POINTS {
        Some(SwapError::InvalidFeePercentage)
    } else {
        None
    }
}

/// Sets the fee to `new_fee` basis points. Only the administrator can do
/// so, and the fee is at most 10000. Offers that exist keep the fee they
/// were created with. Nothing changes on failure.
pub fn fee_update(ctx: &mut UpdateFee, new_fee: u64, current_time: i64) -> (outcome: Result<
    FeeUpdated,
    SwapError,
>)
    ensures
        match outcome {
            Ok(event) => {
                &&& fee_rejection(old(ctx), new_fee) is None
                &&& *final(ctx) == (UpdateFee {
                    fee_config: FeeConfig { fee_percentage: new_fee, ..old(ctx).fee_config },
                    ..*old(ctx)
                })
                &&& final(ctx).fee_config.wf()
                &&& event == (FeeUpdated {
                    admin: old(ctx).admin,
                    old_fee: old(ctx).fee_config.fee_percentage,
                    new_fee,
                    timestamp: current_time,
                })
            },
            Err(e) => fee_rejection(old(ctx), new_fee) == Some(e) && *final(ctx) == *old(ctx),
        },
{
    if ctx.admin_config.admin != ctx.admin {
        return Err(SwapError::UnauthorizedAdmin);
    }
    let old_fee = ctx.fee_config.fee_percentage;
    if new_fee > MAX_FEE_BASIS_POINTS {
        return Err(SwapError::InvalidFeePercentage);
    }
    ctx.fee_config.fee_percentage = new_fee;
    Ok(FeeUpdated { admin: ctx.admin, old_fee, new_fee, timestamp: current_time })
}

/// Flips the switch that makes allow-lists binding. Only the
/// administrator can do so. Nothing changes on failure.
pub fn update_toggle_whitelist(ctx: &mut ToggleRequireWhitelist, current_time: i64) -> (outcome:
    Result<WhitelistRequirementToggled, SwapError>)
    ensures
        match outcome {
            Ok(event) => {
                &&& old(ctx).admin_config.admin == old(ctx).admin
                &&& *final(ctx) == (ToggleRequireWhitelist {
                    whitelist_config: WhitelistConfig {
                        require_whitelist: !old(ctx).whitelist_config.require_whitelist,
                    },
                    ..*old(ctx)
                })
                &&& event == (WhitelistRequirementToggled {
                    admin: old(ctx).admin,
                    new_status: !old(ctx).whitelist_config.require_whitelist,
                    timestamp: current_time,
                })
            },
            Err(e) => {
                &&& e == SwapError::UnauthorizedAdmin
                &&& old(ctx).admin_config.admin != old(ctx).admin
                &&& *final(ctx) == *old(ctx)
            },
        },
{
    if ctx.admin_config.admin != ctx.admin {
        return Err(SwapError::UnauthorizedAdmin);
    }
    ctx.whitelist_config.require_whitelist = !ctx.whitelist_config.require_whitelist;
    Ok(
        WhitelistRequirementToggled {
            admin: ctx.admin,
            new_status: ctx.whitelist_config.require_whitelist,
            timestamp: current_time,
        },
    )
}

/// The error with which adding `new_mints` is refused, or `None` where it
/// goes through; the checks are made in this order. The list must have
/// room for all of them, whether or not some are on it already.
pub open spec fn add_mints_rejection(ctx: &ModifyMintWhitelist, new_mints: Seq<Address>) -> Option<
    SwapError,
> {
    if ctx.admin_config.admin != ctx.admin {
        Some(SwapError::UnauthorizedAdmin)
    } else if ctx.mint_whitelist.mints@.len() + new_mints.len() > MAX_WHITELIST_ENTRIES {
        Some(SwapError::TooManyMints)
    } else {
        None
    }
}

/// Adds each of `new_mints` to the accepted asset types, in turn, skipping
/// those that are accepted already. Nothing changes on failure.
pub fn add_mints(
    ctx: &mut ModifyMintWhitelist,
    new_mints: Vec<Address>,
    current_time: i64,
) -> (outcome: Result<MintsAddedToWhitelist, SwapError>)
    ensures
        match outcome {
            Ok(event) => {
                &&& add_mints_rejection(old(ctx), new_mints@) is None
                &&& final(ctx).mint_whitelist.mints@ == with_entries(
                    old(ctx).mint_whitelist.mints@,
                    new_mints@,
                )
                &&& forall|a: Address| #[trigger]
                    final(ctx).mint_whitelist.mints@.contains(a) <==> old(
                        ctx,
                    ).mint_whitelist.mints@.contains(a) || new_mints@.contains(a)
                &&& event.admin == old(ctx).admin
                &&& event.new_mints@ == new_mints@
                &&& event.timestamp == current_time
            },
            Err(e) => add_mints_rejection(old(ctx), new_mints@) == Some(e) && final(
                ctx
            ).mint_whitelist.mints@ == old(ctx).mint_whitelist.mints@,
        },
        final(ctx).admin == old(ctx).admin,
        final(ctx).admin_config == old(ctx).admin_config,
        old(ctx).mint_whitelist.wf() ==> final(ctx).mint_whitelist.wf(),
{
    if ctx.admin_config.admin != ctx.admin {
        return Err(SwapError::UnauthorizedAdmin);
    }
    if new_mints.len() > MAX_WHITELIST_ENTRIES || ctx.mint_whitelist.mints.len()
        > MAX_WHITELIST_ENTRIES - new_mints.len() {
        return Err(SwapError::TooManyMints);
    }
    add_entries(&mut ctx.mint_whitelist.mints, &new_mints);
    proof {
        lemma_with_entries(old(ctx).mint_whitelist.mints@, new_mints@);
    }
    Ok(MintsAddedToWhitelist { admin: ctx.admin, new_mints, timestamp: current_time })
}

/// Drops every one of `unwanted` from the accepted asset types; those
/// that are not accepted are passed over. Only the administrator can do
/// so. Nothing changes on failure.
pub fn remove_mints(
    ctx: &mut ModifyMintWhitelist,
    unwanted: Vec<Address>,
    current_time: i64,
) -> (outcome: Result<MintsRemovedFromWhitelist, SwapError>)
    ensures
        match outcome {
            Ok(event) => {
                &&& old(ctx).admin_config.admin == old(ctx).admin
                &&& final(ctx).mint_whitelist.mints@ == without_entries(
                    old(ctx).mint_whitelist.mints@,
                    unwanted@,
                )
                &&& forall|a: Address| #[trigger]
                    final(ctx).mint_whitelist.mints@.contains(a) <==> old(
                        ctx,
                    ).mint_whitelist.mints@.contains(a) && !unwanted@.contains(a)
                &&& event.admin == old(ctx).admin
                &&& event.removed_mints@ == unwanted@
                &&& event.timestamp == current_time
            },
            Err(e) => {
                &&& e == SwapError::UnauthorizedAdmin
                &&& old(ctx).admin_config.admin != old(ctx).admin
                &&& final(ctx).mint_whitelist.mints@ == old(ctx).mint_whitelist.mints@
            },
        },
        final(ctx).admin == old(ctx).admin,
        final(ctx).admin_config == old(ctx).admin_config,
        old(ctx).mint_whitelist.wf() ==> final(ctx).mint_whitelist.wf(),
{
    if ctx.admin_config.admin != ctx.admin {
        return Err(SwapError::UnauthorizedAdmin);
    }
    remove_entries(&mut ctx.mint_whitelist.mints, &unwanted);
    proof {
        lemma_without_entries(old(ctx).mint_whitelist.mints@, unwanted@);
    }
    Ok(
        MintsRemovedFromWhitelist {
            admin: ctx.admin,
            removed_mints: unwanted,
            timestamp: current_time,
        },
    )
}

impl ModifyMintWhitelist {
    /// The error with which accepting `mint` is refused, or `None` where it
    /// goes through; the checks are made in this order.
    pub open spec fn add_rejection(&self, mint: Address) -> Option<SwapError> {
        if self.admin_config.admin != self.admin {
            Some(SwapError::UnauthorizedAdmin)
        } else if self.mint_whitelist.mints@.contains(mint) {
            Some(SwapError::MintAlreadyWhitelisted)
        } else if self.mint_whitelist.mints@.len() >= MAX_WHITELIST_ENTRIES {
            Some(SwapError::TooManyMints)
        } else {
            None
        }
    }

    /// The error with which dropping `mint` is refused, or `None` where it
    /// goes through; the checks are made in this order.
    pub open spec fn remove_rejection(&self, mint: Address) -> Option<SwapError> {
        if self.admin_config.admin != self.admin {
            Some(SwapError::UnauthorizedAdmin)
        } else if !self.mint_whitelist.mints@.contains(mint) {
            Some(SwapError::MintNotWhitelisted)
        } else {
            None
        }
    }

    /// Puts `mint` at the end of the accepted asset types. Only the
    /// administrator can do so, an accepted asset type is not added again,
    /// and the list holds no more than 50. Nothing changes on failure.
    pub fn add_mint(&mut self, mint: Address) -> (outcome: Result<(), SwapError>)
        ensures
            match outcome {
                Ok(_) => old(self).add_rejection(mint) is None && final(
                    self
                ).mint_whitelist.mints@ == old(self).mint_whitelist.mints@.push(mint),
                Err(e) => old(self).add_rejection(mint) == Some(e) && final(
                    self
                ).mint_whitelist.mints@ == old(self).mint_whitelist.mints@,
            },
            final(self).admin == old(self).admin,
            final(self).admin_config == old(self).admin_config,
            old(self).mint_whitelist.wf() ==> final(self).mint_whitelist.wf(),
    {
        if self.admin_config.admin != self.admin {
            return Err(SwapError::UnauthorizedAdmin);
        }
        if list_contains(&self.mint_whitelist.mints, &mint) {
            return Err(SwapError::MintAlreadyWhitelisted);
        }
        if self.mint_whitelist.mints.len() >= MAX_WHITELIST_ENTRIES {
            return Err(SwapError::TooManyMints);
        }
        self.mint_whitelist.mints.push(mint);
        Ok(())
    }

    /// Drops `mint` from the accepted asset types, at the first place where
    /// it stands. Only the administrator can do so, and only an accepted
    /// asset type can be dropped. Nothing changes on failure.
    pub fn remove_mint(&mut self, mint: Address) -> (outcome: Result<(), SwapError>)
        ensures
            match outcome {
                Ok(_) => old(self).remove_rejection(mint) is None && final(
                    self
                ).mint_whitelist.mints@ == old(self).mint_whitelist.mints@.remove(
                    first_position(old(self).mint_whitelist.mints@, mint),
                ),
                Err(e) => old(self).remove_rejection(mint) == Some(e) && final(
                    self
                ).mint_whitelist.mints@ == old(self).mint_whitelist.mints@,
            },
            final(self).admin == old(self).admin,
            final(self).admin_config == old(self).admin_config,
            old(self).mint_whitelist.wf() ==> final(self).mint_whitelist.wf(),
    {
        if self.admin_config.admin != self.admin {
            return Err(SwapError::UnauthorizedAdmin);
        }
        let position = match list_position(&self.mint_whitelist.mints, &mint) {
            Some(at) => at,
            None => {
                return Err(SwapError::MintNotWhitelisted);
            },
        };
        self.mint_whitelist.mints.remove(position);
        proof {
            let before = old(self).mint_whitelist.mints@;
            let after = self.mint_whitelist.mints@;
            if before.no_duplicates() {
                assert forall|i: int, j: int| 0 <= i < j < after.len() implies after[i]
                    != after[j] by {
                    let bi = if i < position { i } else { i + 1 };
                    let bj = if j < position { j } else { j + 1 };
                    assert(after[i] == before[bi] && after[j] == before[bj]);
                }
            }
        }
        Ok(())
    }
}

} // verus!
