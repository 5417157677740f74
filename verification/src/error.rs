use vstd::prelude::*;

verus! {

/// Every way in which an operation of the protocol can be refused.
#[derive(Clone, Copy, Debug, PartialEq, Eq, Structural)]
pub enum SwapError {
    /// The offer is not in the status that the operation needs.
    InvalidOfferStatus,
    /// The taker is not on the offer's allow-list.
    TakerNotWhitelisted,
    /// The maker named is not the offer's maker.
    InvalidMaker,
    /// The taker is on the allow-list already.
    TakerAlreadyWhitelisted,
    /// The asset type is accepted already.
    MintAlreadyWhitelisted,
    /// The asset type is not among the accepted ones.
    MintNotWhitelisted,
    /// The administrator named is not the protocol's.
    InvalidAdmin,
    /// The offer's deadline has passed.
    OfferExpired,
    /// The amount asked for is zero or more than what remains.
    InsufficientAmount,
    /// The caller is not the maker and the deadline has not passed.
    CannotCancelOffer,
    /// The caller is not the maker who controls the record.
    UnauthorizedMaker,
    /// The caller is not the administrator.
    UnauthorizedAdmin,
    /// The offer's deadline has not passed yet.
    OfferNotExpired,
    /// The accepted asset types would be more than 50.
    TooManyMints,
    /// The fee is more than 10000 basis points.
    InvalidFeePercentage,
    /// No administrator has been set.
    AdminNotInitialized,
    /// No fee wallet has been set.
    FeeConfigNotInitialized,
    /// The all-zero identity was given where a real one is needed.
    InvalidAddress,
    /// The custody record is closed or belongs to another owner.
    InvalidTokenAccount,
    /// The custody record holds another asset.
    InvalidTokenMint,
    /// The deadline does not lie in the future.
    InvalidDeadline,
    /// The allow-list would hold more than 50 takers.
    WhitelistFull,
    /// No taker was given.
    EmptyTakersList,
    /// The amount to escrow is zero.
    InvalidAmount,
    /// The count of offers would overflow.
    SequenceOverflow,
    /// An amount does not exist or the books cannot take it.
    CalculationError,
    /// The vault is not owned by the offer.
    InvalidVaultOwner,
}

impl SwapError {
    /// The text that goes with each error.
    pub open spec fn message_text(self) -> Seq<char> {
        match self {
            SwapError::InvalidOfferStatus => "Invalid Offer Status"@,
            SwapError::TakerNotWhitelisted => "Taker not whitelisted"@,
            SwapError::InvalidMaker => "Invalid Maker"@,
            SwapError::TakerAlreadyWhitelisted => "Taker already exists"@,
            SwapError::MintAlreadyWhitelisted => "Token already whitelisted"@,
            SwapError::MintNotWhitelisted => "Token not whitelisted"@,
            SwapError::InvalidAdmin => "Invalid Admin"@,
            SwapError::OfferExpired => "Offer has expired"@,
            SwapError::InsufficientAmount => "Insufficient amount available"@,
            SwapError::CannotCancelOffer => "Cannot Cancel Offer"@,
            SwapError::UnauthorizedMaker => "Invalid Maker"@,
            SwapError::UnauthorizedAdmin => "Unauthorized admin"@,
            SwapError::OfferNotExpired => "Offer has not expired yet"@,
            SwapError::TooManyMints => "Maximum number of whitelisted mints reached"@,
            SwapError::InvalidFeePercentage => "Fee percentage cannot exceed 100%"@,
            SwapError::AdminNotInitialized => "Admin has not been initialized"@,
            SwapError::FeeConfigNotInitialized => "Fee configuration has not been initialized"@,
            SwapError::InvalidAddress => "Zero Address not allowed"@,
            SwapError::InvalidTokenAccount => "Invalid token account owner"@,
            SwapError::InvalidTokenMint => "Token mint mismatch"@,
            SwapError::InvalidDeadline => "Deadline must be in the future"@,
            SwapError::WhitelistFull => "Whitelist is full"@,
            SwapError::EmptyTakersList => "Takers list cannot be empty"@,
            SwapError::InvalidAmount => "Token amount must be greater than 0"@,
            SwapError::SequenceOverflow => "Sequence Overflow"@,
            SwapError::CalculationError => "Calculation error occurred."@,
            SwapError::InvalidVaultOwner => "Invalid vault owner"@,
        }
    }

    /// The text that goes with this error.
    pub fn message(&self) -> (text: &'static str)
        ensures
            text@ == self.message_text(),
    {
        match self {
            SwapError::InvalidOfferStatus => "Invalid Offer Status",
            SwapError::TakerNotWhitelisted => "Taker not whitelisted",
            SwapError::InvalidMaker => "Invalid Maker",
            SwapError::TakerAlreadyWhitelisted => "Taker already exists",
            SwapError::MintAlreadyWhitelisted => "Token already whitelisted",
            SwapError::MintNotWhitelisted => "Token not whitelisted",
            SwapError::InvalidAdmin => "Invalid Admin",
            SwapError::OfferExpired => "Offer has expired",
            SwapError::InsufficientAmount => "Insufficient amount available",
            SwapError::CannotCancelOffer => "Cannot Cancel Offer",
            SwapError::UnauthorizedMaker => "Invalid Maker",
            SwapError::UnauthorizedAdmin => "Unauthorized admin",
            SwapError::OfferNotExpired => "Offer has not expired yet",
            SwapError::TooManyMints => "Maximum number of whitelisted mints reached",
            SwapError::InvalidFeePercentage => "Fee percentage cannot exceed 100%",
            SwapError::AdminNotInitialized => "Admin has not been initialized",
            SwapError::FeeConfigNotInitialized => "Fee configuration has not been initialized",
            SwapError::InvalidAddress => "Zero Address not allowed",
            SwapError::InvalidTokenAccount => "Invalid token account owner",
            SwapError::InvalidTokenMint => "Token mint mismatch",
            SwapError::InvalidDeadline => "Deadline must be in the future",
            SwapError::WhitelistFull => "Whitelist is full",
            SwapError::EmptyTakersList => "Takers list cannot be empty",
            SwapError::InvalidAmount => "Token amount must be greater than 0",
            SwapError::SequenceOverflow => "Sequence Overflow",
            SwapError::CalculationError => "Calculation error occurred.",
            SwapError::InvalidVaultOwner => "Invalid vault owner",
        }
    }
}

} // verus!
