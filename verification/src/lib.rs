//! A registry of uniquely numbered tokens with a fixed-price marketplace.
//!
//! The registry keeps who owns each token, who may transfer it on the owner's
//! behalf, and which tokens are offered for sale. A sale moves the token to
//! the buyer and divides the price among royalty recipient, platform and
//! seller. Every operation is a step on a [`ledger::Ledger`]; what a step does
//! is stated over the ledger's mathematical value, [`ledger::LedgerState`],
//! by the functions in [`transitions`], and what holds of all steps is proved
//! in [`lemmas`].
//!
//! Authentication of callers, payment and the lifetime of ledger entries are
//! the business of the host that drives the registry.

pub mod admin;
pub mod allowance;
pub mod balance;
pub mod fees;
pub mod ledger;
pub mod lemmas;
pub mod marketplace;
pub mod metadata;
pub mod storage_types;
pub mod transitions;

pub use marketplace::StellarNFTMarketplace;
