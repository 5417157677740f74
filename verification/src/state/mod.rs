pub mod admin;
pub mod offer;
pub mod taker;
pub mod vault;
pub mod whitelist;

pub use admin::{AdminConfig, FeeConfig, MintWhitelist, WhitelistConfig};
pub use offer::{Offer, OfferStatus};
pub use taker::Trade;
pub use vault::EscrowVault;
pub use whitelist::Whitelist;
