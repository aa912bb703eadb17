//! A verified model of a single-supply token ("NFT") issuer.
//!
//! The library models a host ledger as a store of addressed accounts and
//! gives the two entry points of the issuer — `initialize` and `minting_nft`
//! — exact contracts: which inputs are rejected with which error, and how a
//! successful call changes the ledger. Address derivation for metadata,
//! master-edition and recipient token records is delegated to the host
//! chain's own derivation routines behind trusted wrappers.

pub mod accounts;
pub mod address;
pub mod errors;
pub mod ledger;
pub mod pda;
pub mod program;
pub mod text;
