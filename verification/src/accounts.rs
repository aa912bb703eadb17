//! The closed set of account kinds that the issuer reads and writes.

use vstd::prelude::*;
use crate::address::Address;

verus! {

/// The persisted configuration of one deployment: who may mint, which vault
/// pays, the derivation nonces, and the monotonic mint counter.
#[derive(Clone, Copy, Debug, PartialEq, Eq)]
pub struct NFTMintSettings {
    /// Derivation nonce of the configuration record itself.
    pub config_nonce: u8,
    /// Derivation nonce of the payer vault.
    pub vault_nonce: u8,
    /// The identity permitted to request minting.
    pub authority: Address,
    /// The vault bound at initialization; never mutated afterwards.
    pub payer_vault: Address,
    /// Number of units minted so far.
    pub nft_count: u64,
}

/// One entry of a metadata record's creator list.
#[derive(Clone, Copy, Debug, PartialEq, Eq)]
pub struct CreatorEntry {
    pub address: Address,
    pub verified: bool,
    pub share: u8,
}

/// What an account holds, as a tagged variant validated before use.
#[derive(Debug, PartialEq, Eq)]
pub enum AccountData {
    /// A plain balance-only account (a wallet or the vault).
    Empty,
    /// The issuer's configuration record.
    Configuration(NFTMintSettings),
    /// A token supply record.
    MintAccount {
        decimals: u8,
        supply: u64,
        mint_authority: Address,
        freeze_authority: Address,
    },
    /// A holding account for one recipient and one mint.
    TokenAccount {
        owner: Address,
        mint: Address,
        amount: u64,
    },
    /// The descriptive record attached to a mint.
    Metadata {
        mint: Address,
        update_authority: Address,
        name: String,
        symbol: String,
        uri: String,
        seller_fee_basis_points: u16,
        creators: Vec<CreatorEntry>,
        is_mutable: bool,
    },
    /// The record capping how many numbered copies can ever be printed.
    MasterEdition { max_supply: u64 },
}

/// One ledger account: its balance and its data.
#[derive(Debug, PartialEq, Eq)]
pub struct Account {
    /// Balance in the smallest ledger unit.
    pub lamports: u64,
    /// The account's tagged contents.
    pub data: AccountData,
}

} // verus!
