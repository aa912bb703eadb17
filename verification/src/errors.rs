//! The named failure conditions of the issuer.

use vstd::prelude::*;

verus! {

/// Why a request was rejected. Every rejection leaves the ledger exactly as
/// it was.
#[derive(Clone, Copy, Debug, PartialEq, Eq, Structural)]
pub enum ErrorCode {
    /// The supplied vault does not match the configuration's bound vault.
    PayerVaultMismatch,
    /// A record does not hold the kind of data its role requires.
    InvalidOwner,
    /// The requesting signer is not the configured authority.
    Unauthorized,
    /// The claimed recipient token address fails deterministic recomputation.
    InvalidAssociatedTokenAddress,
    /// An account that a step would create already exists, or two accounts
    /// of the request collide on one address.
    AccountAlreadyExists,
    /// A balance cannot cover a transfer or the rent of the created records.
    InsufficientFunds,
    /// The host's address derivation found no usable derived address.
    AddressDerivationFailed,
}

} // verus!
