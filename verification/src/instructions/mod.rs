pub mod admin;
pub mod cancel_offer;
pub mod create_offer;
pub mod expire_offer;
pub mod modify_taker_whitelist;
pub mod taker_offer;
pub mod update_taker_whitelist;
