//! The program's instruction handlers, one module per handler family.

pub mod assert_supported_mint;
pub mod permanent_delegate;
pub mod unfreeze_delegate;
pub mod mint_with_fee;
pub mod confidential_fee_mint;
pub mod create_seizable_mint;
pub mod confidential_lifecycle;
