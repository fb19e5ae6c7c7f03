//! The runtime module APIs a sandbox exposes to test code.

pub mod assets_api;
pub mod balances_api;
pub mod nfts_api;
