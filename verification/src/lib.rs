//! A registry of kitties: uniquely identified digital assets, each owned by one account.
//!
//! The registry keeps the asset store and the per-account ownership lists consistent
//! through minting, pricing, transfer, sale and breeding. Every operation validates
//! first and commits afterwards, so a refused call leaves the registry as it was.

pub mod types;
pub mod dna;
pub mod owned;
pub mod index;
pub mod store;
pub mod currency;
pub mod model;
pub mod laws;
mod registry;
pub mod pallet;
pub mod genesis;

pub use crate::currency::{Currency, InsufficientFunds, Ledger};
pub use crate::genesis::GenesisConfig;
pub use crate::pallet::Pallet;
pub use crate::types::{
    AccountId, Balance, ChainContext, Config, Error, Event, Gender, Kitty, KittyId,
};
